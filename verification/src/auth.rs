//! Authentication: from the credential header of a request to the identity
//! key to look up, and from what the lookup found to the caller.

use crate::identity::{parse_uuid, uuid_parse};
use crate::jwt::{
    get_claims_from_jwt_token, payload_claims, token_payload, JwtConfig, TokenClaims,
    TokenClaimsView,
};
use crate::response::{outcome_view, ApiErrorType, ApiErrorView};
use vstd::prelude::*;
use vstd::string::StrSliceExecFns;

verus! {

/// The words with which a credential header begins.
pub open spec fn bearer_prefix() -> Seq<char> {
    seq!['B', 'e', 'a', 'r', 'e', 'r', ' ']
}

/// The token that a credential header carries: what follows `Bearer ` in a
/// header that begins so, and none for any other header and where there is
/// no header.
pub open spec fn bearer_token_of(header: Option<Seq<char>>) -> Option<Seq<char>> {
    match header {
        Some(text) => if text.len() >= 7 && text.subrange(0, 7) == bearer_prefix() {
            Some(text.subrange(7, text.len() as int))
        } else {
            None
        },
        None => None,
    }
}

/// Takes the token out of a credential header. A request without a header,
/// or with one of another form, comes from a caller who is not logged in.
pub fn bearer_token(header: &Option<String>) -> (r: Result<String, ApiErrorType>)
    ensures
        match bearer_token_of(header.deep_view()) {
            Some(token) => r matches Ok(found) && found@ == token,
            None => r matches Err(error) && error.deep_view() == ApiErrorView::NotLoggedIn,
        },
{
    match header {
        Some(text) => {
            let prefix = "Bearer ";
            proof {
                reveal_strlit("Bearer ");
                assert(prefix@ =~= bearer_prefix());
            }
            let text = text.as_str();
            let len = text.unicode_len();
            if len < 7 {
                return Err(ApiErrorType::NotLoggedIn);
            }
            let mut i: usize = 0;
            while i < 7
                invariant
                    i <= 7,
                    len == text@.len(),
                    len >= 7,
                    header.deep_view() == Some(text@),
                    prefix@ == bearer_prefix(),
                    forall|k: int| 0 <= k < i ==> text@[k] == bearer_prefix()[k],
                decreases 7 - i,
            {
                if text.get_char(i) != prefix.get_char(i) {
                    assert(text@.subrange(0, 7)[i as int] != bearer_prefix()[i as int]);
                    return Err(ApiErrorType::NotLoggedIn);
                }
                i += 1;
            }
            assert(text@.subrange(0, 7) =~= bearer_prefix());
            Ok(text.substring_char(7, len).to_owned())
        },
        None => Err(ApiErrorType::NotLoggedIn),
    }
}

/// The identity that a subject names, given what parsing it gave. A token
/// of the service whose subject is no identity key is corrupt: that is the
/// service's fault, not the caller's.
pub open spec fn identity_of_subject(parsed: Option<u128>) -> Result<u128, ApiErrorView> {
    match parsed {
        Some(id) => Ok(id),
        None => Err(ApiErrorView::InternalServerError),
    }
}

/// The identity that a token names, given the claims it was found to hold:
/// a token that was not accepted names none.
pub open spec fn identity_of_claims(claims: Option<TokenClaimsView>) -> Result<u128, ApiErrorView> {
    match claims {
        Some(claims) => identity_of_subject(uuid_parse(claims.sub)),
        None => Err(ApiErrorView::InvalidJwtToken),
    }
}

/// What a request is answered once its identity has been looked up: the
/// identity that was found, and an invalid token for every failure of the
/// lookup, so that a caller cannot tell an unknown identity from a bad
/// token.
pub open spec fn lookup_outcome<T>(found: Result<T, ApiErrorView>) -> Result<T, ApiErrorView> {
    match found {
        Ok(identity) => Ok(identity),
        Err(_) => Err(ApiErrorView::InvalidJwtToken),
    }
}

/// Decides which identity a subject names, given what parsing it gave.
pub fn identity_from_subject(parsed: Option<u128>) -> (r: Result<u128, ApiErrorType>)
    ensures
        outcome_view(r) == identity_of_subject(parsed),
{
    match parsed {
        Some(id) => Ok(id),
        None => Err(ApiErrorType::InternalServerError),
    }
}

/// Decides which identity a token names, given the claims it was found to
/// hold.
pub fn identity_from_claims(claims: Option<TokenClaims>) -> (r: Result<u128, ApiErrorType>)
    ensures
        outcome_view(r) == identity_of_claims(claims.deep_view()),
{
    match claims {
        Some(claims) => identity_from_subject(parse_uuid(claims.sub.as_str())),
        None => Err(ApiErrorType::InvalidJwtToken),
    }
}

/// The claims that the text of a bearer token holds.
pub open spec fn claims_of_token(token: Seq<char>) -> Option<TokenClaimsView> {
    payload_claims(token_payload(token))
}

/// Whether `answer` is one that a bearer token can be given: an invalid
/// token, for a token that is not accepted, and for one that is accepted
/// what its own claims give, the identity key that its subject names or an
/// internal error where the subject names none.
pub open spec fn answers_token(token: Seq<char>, answer: Result<u128, ApiErrorView>) -> bool {
    answer == Err::<u128, ApiErrorView>(ApiErrorView::InvalidJwtToken) || answer
        == identity_of_claims(claims_of_token(token))
}

/// The first step of authentication: from the credential header to the key of
/// the identity to look up. A request without a bearer token is not logged
/// in, whatever the keys and the clock are. A bearer token that is not
/// accepted is an invalid token; one that is accepted names the identity
/// key that the subject in its own payload reads as, and is an internal
/// error if that subject is no identity key.
pub fn authenticate(header: &Option<String>, jwt_config: &JwtConfig) -> (r: Result<
    u128,
    ApiErrorType,
>)
    ensures
        match bearer_token_of(header.deep_view()) {
            Some(token) => answers_token(token, outcome_view(r)),
            None => outcome_view(r) == Err::<u128, ApiErrorView>(ApiErrorView::NotLoggedIn),
        },
{
    match bearer_token(header) {
        Ok(token) => identity_from_claims(get_claims_from_jwt_token(&token, jwt_config)),
        Err(error) => Err(error),
    }
}

/// The last step of authentication: from what the lookup of the identity
/// gave to the answer.
pub fn resolve_identity<T>(found: Result<T, ApiErrorType>) -> (r: Result<T, ApiErrorType>)
    ensures
        outcome_view(r) == lookup_outcome(outcome_view(found)),
{
    match found {
        Ok(identity) => Ok(identity),
        Err(_) => Err(ApiErrorType::InvalidJwtToken),
    }
}

/// Authenticates a request: takes the identity key out of the token in
/// the credential header and hands it to `lookup`, which finds the
/// identity. A request without a bearer token is not logged in; a token
/// that is not accepted, and an identity that `lookup` does not find, are
/// an invalid token; a token whose subject is no identity key is an
/// internal error. Whoever is let through was found by `lookup` under the
/// identity key that the subject of the token names.
pub fn authenticate_with<T, F: FnOnce(u128) -> Result<T, ApiErrorType>>(
    header: &Option<String>,
    jwt_config: &JwtConfig,
    lookup: F,
) -> (r: Result<T, ApiErrorType>)
    requires
        forall|id: u128| call_requires(lookup, (id,)),
    ensures
        match bearer_token_of(header.deep_view()) {
            Some(token) => match r {
                Ok(identity) => identity_of_claims(claims_of_token(token)) matches Ok(id)
                    && call_ensures(lookup, (id,), Ok::<T, ApiErrorType>(identity)),
                Err(error) => answers_token(
                    token,
                    Err::<u128, ApiErrorView>(error.deep_view()),
                ),
            },
            None => outcome_view(r) == Err::<T, ApiErrorView>(ApiErrorView::NotLoggedIn),
        },
{
    match authenticate(header, jwt_config) {
        Ok(id) => resolve_identity(lookup(id)),
        Err(error) => Err(error),
    }
}

/// A token that is not accepted and an identity that is not found are
/// answered alike.
pub proof fn lemma_unknown_identity_is_invalid_token<T>(failure: ApiErrorView)
    ensures
        lookup_outcome(Err::<T, ApiErrorView>(failure)) == Err::<T, ApiErrorView>(
            ApiErrorView::InvalidJwtToken,
        ),
        identity_of_claims(None) == Err::<u128, ApiErrorView>(ApiErrorView::InvalidJwtToken),
{
}

/// A header that does not begin with `Bearer ` carries no token, and a
/// header that is `Bearer ` followed by a text carries that text.
pub proof fn lemma_bearer_token(token: Seq<char>, other: Seq<char>)
    requires
        other.len() < 7 || other.subrange(0, 7) != bearer_prefix(),
    ensures
        bearer_token_of(Some(bearer_prefix() + token)) == Some(token),
        bearer_token_of(Some(other)) is None,
        bearer_token_of(None) is None,
{
    let header = bearer_prefix() + token;
    assert(header.subrange(0, 7) =~= bearer_prefix());
    assert(header.subrange(7, header.len() as int) =~= token);
}

} // verus!
