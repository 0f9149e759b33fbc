//! Signed tokens: what they carry, how they are issued and how they are
//! read back.

use crate::identity::{format_uuid, uuid_parse, uuid_text};
use crate::json::{json_from_raw, raw_from_json};
use crate::raw::{
    entries_map, field_of, RawBody, RawFieldValue, RawNumber, RawNumberView, RawValueView,
};
use crate::response::{ApiErrorType, ApiErrorView};
use jsonwebtoken::errors::Error;
use jsonwebtoken::{DecodingKey, EncodingKey};
use vstd::prelude::*;

verus! {

/// `jsonwebtoken::EncodingKey`, the key that signs tokens.
#[verifier::external_type_specification]
#[verifier::external_body]
pub struct ExEncodingKey(EncodingKey);

/// `jsonwebtoken::DecodingKey`, the key that verifies tokens.
#[verifier::external_type_specification]
#[verifier::external_body]
pub struct ExDecodingKey(DecodingKey);

/// `jsonwebtoken::errors::Error`, the reason a token was not signed or not
/// accepted.
#[verifier::external_type_specification]
#[verifier::external_body]
pub struct ExTokenError(Error);

/// What a token says: whom it was issued to, and the seconds since the
/// epoch at which it ends and at which it was issued.
#[derive(Debug, Clone, PartialEq, Eq)]
pub struct TokenClaims {
    pub sub: String,
    pub exp: usize,
    pub iat: usize,
}

/// The mathematical value of a [`TokenClaims`].
pub struct TokenClaimsView {
    pub sub: Seq<char>,
    pub exp: usize,
    pub iat: usize,
}

impl DeepView for TokenClaims {
    type V = TokenClaimsView;

    open spec fn deep_view(&self) -> TokenClaimsView {
        TokenClaimsView { sub: self.sub@, exp: self.exp, iat: self.iat }
    }
}

/// The keys of the service and the number of hours for which a token holds.
pub struct JwtConfig {
    pub private_key: EncodingKey,
    pub public_key: DecodingKey,
    pub expire_in_hours: i64,
}

/// The second at which a token issued at `now` ends.
pub open spec fn expiry_of(now: int, expire_in_hours: int) -> int {
    now + expire_in_hours * 3600
}

/// The claims of a token issued at `now` to `subject`: none where one of the
/// two times is negative or too large for a claim.
pub open spec fn claims_issued_at(subject: Seq<char>, now: i64, expire_in_hours: i64) -> Option<
    TokenClaimsView,
> {
    if 0 <= now <= usize::MAX && 0 <= expiry_of(now as int, expire_in_hours as int) <= usize::MAX {
        Some(
            TokenClaimsView {
                sub: subject,
                exp: expiry_of(now as int, expire_in_hours as int) as usize,
                iat: now as usize,
            },
        )
    } else {
        None
    }
}

/// Makes the claims of a token issued at `now`, the seconds since the
/// epoch, that holds for `expire_in_hours` hours.
pub fn claims_at(subject: String, now: i64, expire_in_hours: i64) -> (claims: Option<TokenClaims>)
    ensures
        claims.deep_view() == claims_issued_at(subject@, now, expire_in_hours),
{
    let limit: i128 = usize::MAX as i128;
    let issued: i128 = now as i128;
    let expires: i128 = issued + (expire_in_hours as i128) * 3600;
    if 0 <= issued && issued <= limit && 0 <= expires && expires <= limit {
        Some(TokenClaims { sub: subject, exp: expires as usize, iat: issued as usize })
    } else {
        None
    }
}

/// The payload of a token: an object with the subject under `sub` and the
/// two times, as integers, under `exp` and `iat`.
pub open spec fn claims_payload(claims: TokenClaimsView) -> RawValueView {
    RawValueView::Object(
        seq![
            ("sub"@, RawValueView::String(claims.sub)),
            ("exp"@, RawValueView::Number(RawNumberView::Unsigned(claims.exp as u64))),
            ("iat"@, RawValueView::Number(RawNumberView::Unsigned(claims.iat as u64))),
        ],
    )
}

/// The time that a payload holds in one field: a non-negative integer that
/// a claim can hold.
pub open spec fn time_claim(value: RawValueView) -> Option<usize> {
    match value {
        RawValueView::Number(RawNumberView::Unsigned(n)) => if n <= usize::MAX {
            Some(n as usize)
        } else {
            None
        },
        _ => None,
    }
}

/// The text that a payload holds in one field.
pub open spec fn text_claim(value: RawValueView) -> Option<Seq<char>> {
    match value {
        RawValueView::String(text) => Some(text),
        _ => None,
    }
}

/// The claims that a payload holds: those of an object with a text under
/// `sub` and a time under each of `exp` and `iat`, whatever else it holds.
pub open spec fn payload_claims(payload: RawValueView) -> Option<TokenClaimsView> {
    match payload {
        RawValueView::Object(entries) => {
            let body = entries_map(entries, 0);
            match (
                text_claim(field_of(body, "sub"@)),
                time_claim(field_of(body, "exp"@)),
                time_claim(field_of(body, "iat"@)),
            ) {
                (Some(sub), Some(exp), Some(iat)) => Some(TokenClaimsView { sub, exp, iat }),
                _ => None,
            }
        },
        _ => None,
    }
}

/// Reads a time out of one field of a payload.
fn read_time_claim(value: &RawFieldValue) -> (time: Option<usize>)
    ensures
        time == time_claim(value.deep_view()),
{
    match value {
        RawFieldValue::Number(RawNumber::Unsigned(n)) => {
            if *n <= usize::MAX as u64 {
                Some(*n as usize)
            } else {
                None
            }
        },
        _ => None,
    }
}

/// Reads a text out of one field of a payload.
fn read_text_claim(value: &RawFieldValue) -> (text: Option<String>)
    ensures
        text.deep_view() == text_claim(value.deep_view()),
{
    match value {
        RawFieldValue::String(text) => Some(text.clone()),
        _ => None,
    }
}

impl TokenClaims {
    /// The payload that carries these claims.
    pub fn to_payload(&self) -> (payload: RawFieldValue)
        ensures
            payload.deep_view() == claims_payload(self.deep_view()),
    {
        let mut entries: Vec<(String, RawFieldValue)> = Vec::new();
        entries.push(("sub".to_owned(), RawFieldValue::String(self.sub.clone())));
        entries.push(
            ("exp".to_owned(), RawFieldValue::Number(RawNumber::Unsigned(self.exp as u64))),
        );
        entries.push(
            ("iat".to_owned(), RawFieldValue::Number(RawNumber::Unsigned(self.iat as u64))),
        );
        proof {
            RawFieldValue::lemma_object_view(entries);
            assert(entries.deep_view() =~= claims_payload(self.deep_view())->Object_0);
        }
        RawFieldValue::Object(entries)
    }

    /// Reads the claims out of the payload of a token.
    pub fn from_payload(payload: RawFieldValue) -> (claims: Option<TokenClaims>)
        ensures
            claims.deep_view() == payload_claims(payload.deep_view()),
    {
        match payload {
            RawFieldValue::Object(entries) => {
                proof {
                    RawFieldValue::lemma_object_view(entries);
                }
                let missing = RawFieldValue::Missing;
                let body = RawBody::new(entries);
                let sub = read_text_claim(body.field("sub", &missing));
                let exp = read_time_claim(body.field("exp", &missing));
                let iat = read_time_claim(body.field("iat", &missing));
                match (sub, exp, iat) {
                    (Some(sub), Some(exp), Some(iat)) => Some(TokenClaims { sub, exp, iat }),
                    _ => None,
                }
            },
            _ => None,
        }
    }
}

/// A payload that carries claims gives the same claims back: what is
/// issued can be read.
pub proof fn lemma_payload_round_trip(claims: TokenClaimsView)
    ensures
        payload_claims(claims_payload(claims)) == Some(claims),
{
    reveal_strlit("sub");
    reveal_strlit("exp");
    reveal_strlit("iat");
    reveal_with_fuel(entries_map, 4);
    let entries = claims_payload(claims)->Object_0;
    let body = entries_map(entries, 0);
    assert("sub"@ != "exp"@) by {
        assert("sub"@[0] != "exp"@[0]);
    }
    assert("sub"@ != "iat"@) by {
        assert("sub"@[0] != "iat"@[0]);
    }
    assert("exp"@ != "iat"@) by {
        assert("exp"@[0] != "iat"@[0]);
    }
    assert(body.dom().contains("sub"@));
    assert(body.dom().contains("exp"@));
    assert(body.dom().contains("iat"@));
    assert(body["sub"@] == entries[0].1);
    assert(body["exp"@] == entries[1].1);
    assert(body["iat"@] == entries[2].1);
}

/// The seconds since the epoch, as `chrono::Utc::now` and
/// `DateTime::timestamp` give them. Nothing is promised of the number: it is
/// whatever the clock of the machine says. On a machine whose clock stands
/// before the epoch `Utc::now` does not return.
#[verifier::external_body]
fn unix_now() -> i64 {
    chrono::Utc::now().timestamp()
}

/// The text that `jsonwebtoken` signs for a payload under the default
/// header: the header and the payload, each as the base64 of its JSON text,
/// with a dot between them. It does not depend on the key.
pub uninterp spec fn signing_input(payload: RawValueView) -> Seq<char>;

/// The payload that the text of a token holds, as `jsonwebtoken` reads it
/// out of the middle part of a token that it accepts. It depends on
/// neither the key nor the clock.
pub uninterp spec fn token_payload(token: Seq<char>) -> RawValueView;

/// Whether a token is the text that was signed, a dot, and a signature.
pub open spec fn is_signed(token: Seq<char>, input: Seq<char>) -> bool {
    &&& token.len() > input.len()
    &&& token.subrange(0, input.len() as int) == input
    &&& token[input.len() as int] == '.'
}

/// Signs `payload` with `jsonwebtoken::encode` under the default header,
/// which names HS256. Whether the crate signs is not promised: it refuses a
/// key of another family. Where it does, the token is what the crate's
/// source builds: the text that it signed, a dot, and the signature.
#[verifier::external_body]
fn sign_payload(payload: &RawFieldValue, key: &EncodingKey) -> (signed: Result<String, Error>)
    ensures
        signed matches Ok(token) ==> is_signed(token@, signing_input(payload.deep_view())),
{
    jsonwebtoken::encode(&jsonwebtoken::Header::default(), &json_from_raw(payload), key)
}

/// Reads a token with `jsonwebtoken::decode` under the default validation:
/// HS256, a signature made with `key`, and an `exp` claim that lies no more
/// than the crate's leeway in the past. Whether the crate accepts the token
/// is not promised: that depends on the key and on the clock of the
/// machine, and on a machine whose clock stands before the epoch the crate
/// does not return. Where it accepts, what it hands out is the payload that
/// the token's own text holds, converted as a JSON document is.
#[verifier::external_body]
fn verify_token(token: &str, key: &DecodingKey) -> (verified: Result<RawFieldValue, Error>)
    ensures
        verified matches Ok(payload) ==> payload.deep_view() == token_payload(token@),
{
    let validation = jsonwebtoken::Validation::default();
    jsonwebtoken::decode::<serde_json::Value>(token, key, &validation).map(
        |data| raw_from_json(data.claims),
    )
}

/// What becomes of a token once it has been signed: the token, or an
/// internal error where it could not be signed.
pub fn token_from_signing(signed: Result<String, Error>) -> (r: Result<String, ApiErrorType>)
    ensures
        match signed {
            Ok(token) => r == Ok::<String, ApiErrorType>(token),
            Err(_) => r matches Err(error) && error.deep_view()
                == ApiErrorView::InternalServerError,
        },
{
    match signed {
        Ok(token) => Ok(token),
        Err(_) => Err(ApiErrorType::InternalServerError),
    }
}

/// What a token holds once it has been verified: the claims of its payload,
/// and none where it was not accepted.
pub fn claims_from_verification(verified: Result<RawFieldValue, Error>) -> (claims: Option<
    TokenClaims,
>)
    ensures
        claims.deep_view() == (match verified {
            Ok(payload) => payload_claims(payload.deep_view()),
            Err(_) => None,
        }),
{
    match verified {
        Ok(payload) => TokenClaims::from_payload(payload),
        Err(_) => None,
    }
}

/// The payload of the token that is issued to an identity at `now`: none
/// where one of its two times is negative or too large for a claim.
pub open spec fn payload_issued_at(user_id: u128, now: i64, expire_in_hours: i64) -> Option<
    RawValueView,
> {
    match claims_issued_at(uuid_text(user_id), now, expire_in_hours) {
        Some(claims) => Some(claims_payload(claims)),
        None => None,
    }
}

/// Whether the subject of a payload names an identity: the payload holds
/// claims, and their subject reads as the key of the identity.
pub open spec fn names_identity(payload: RawValueView, user_id: u128) -> bool {
    payload_claims(payload) matches Some(claims) && uuid_parse(claims.sub) == Some(user_id)
}

/// Makes the payload of the token that is issued to the identity `user_id`
/// at `now`, the seconds since the epoch, and that holds for
/// `expire_in_hours` hours: its subject is the identity key as a UUID, so
/// that the payload names the identity that it is issued to.
pub fn token_payload_at(user_id: u128, now: i64, expire_in_hours: i64) -> (payload: Option<
    RawFieldValue,
>)
    ensures
        payload.deep_view() == payload_issued_at(user_id, now, expire_in_hours),
        payload matches Some(issued) ==> names_identity(issued.deep_view(), user_id),
{
    match claims_at(format_uuid(user_id), now, expire_in_hours) {
        Some(claims) => {
            proof {
                lemma_payload_round_trip(claims.deep_view());
            }
            Some(claims.to_payload())
        },
        None => None,
    }
}

/// Whether a token is the one issued to an identity at `now`: the payload
/// of that time, which names the identity, signed.
pub open spec fn is_issued_at(
    token: Seq<char>,
    user_id: u128,
    now: i64,
    expire_in_hours: i64,
) -> bool {
    payload_issued_at(user_id, now, expire_in_hours) matches Some(payload) && names_identity(
        payload,
        user_id,
    ) && is_signed(token, signing_input(payload))
}

/// Issues a token to the identity `user_id`, at the time that the clock
/// says, for the hours that the configuration gives. A token that comes
/// out carries the payload of [`token_payload_at`] for some time of the
/// clock: a subject that reads as the identity key, that time as the time
/// of issue, and the time the configured hours later as its end. Times that no claim
/// can hold, and a key that does not sign, end in an internal error, and
/// nothing else does.
pub fn generate_jwt_token(user_id: u128, jwt_config: &JwtConfig) -> (r: Result<
    String,
    ApiErrorType,
>)
    ensures
        r matches Ok(token) ==> exists|now: i64| #[trigger]
            is_issued_at(token@, user_id, now, jwt_config.expire_in_hours),
        r matches Err(error) ==> error.deep_view() == ApiErrorView::InternalServerError,
{
    let now = unix_now();
    match token_payload_at(user_id, now, jwt_config.expire_in_hours) {
        Some(payload) => {
            let r = token_from_signing(sign_payload(&payload, &jwt_config.private_key));
            assert(r matches Ok(token) ==> is_issued_at(
                token@,
                user_id,
                now,
                jwt_config.expire_in_hours,
            ));
            r
        },
        None => Err(ApiErrorType::InternalServerError),
    }
}

/// The claims of a token that the service's key verifies and that has not
/// ended; none for any other token. Claims that come out are those that the
/// payload of the token holds: its subject and its two times.
pub fn get_claims_from_jwt_token(token: &String, jwt_config: &JwtConfig) -> (claims: Option<
    TokenClaims,
>)
    ensures
        claims is Some ==> claims.deep_view() == payload_claims(token_payload(token@)),
{
    claims_from_verification(verify_token(token.as_str(), &jwt_config.public_key))
}

} // verus!
