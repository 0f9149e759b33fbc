use hess_core::commands::{
    InsertUserData, UpdateOrInsertFollowerData, UpdateUserData, UpdateUserPrivacyPreferencesData,
};
use hess_core::json::parse_body;
use hess_core::models::{Gender, UserRole, WhoCan};
use hess_core::raw::{RawBody, RawFieldValue, RawNumber};
use hess_core::response::{ApiErrorType, ValidationError};
use hess_core::validator::{FieldLength, FieldType, TriState};

fn text(s: &str) -> RawFieldValue {
    RawFieldValue::String(s.to_string())
}

fn body(entries: Vec<(&str, RawFieldValue)>) -> RawBody {
    RawBody::new(entries.into_iter().map(|(key, value)| (key.to_string(), value)).collect())
}

fn missing(name: &str) -> ValidationError {
    ValidationError::RequiredFieldMissing { field_name: name.to_string() }
}

fn full_user() -> Vec<(&'static str, RawFieldValue)> {
    vec![
        ("name", text("Ada Lovelace")),
        ("email", text("ada@example.org")),
        ("bio", text("Analyst")),
        ("username", text("ada")),
        ("password", text("s3cret")),
        ("verified", RawFieldValue::Bool(false)),
        ("activated", RawFieldValue::Bool(true)),
        ("gender", text("FEMALE")),
        ("userRole", text("MANAGER")),
    ]
}

fn errors_of<T: std::fmt::Debug>(result: Result<T, ApiErrorType>) -> Vec<ValidationError> {
    match result {
        Err(ApiErrorType::BodyValidationErrors(errors)) => errors,
        other => panic!("expected validation errors, got {:?}", other),
    }
}

#[test]
fn insert_user_is_built_from_a_valid_body() {
    let command = InsertUserData::try_from(body(full_user())).unwrap();
    assert_eq!(
        command,
        InsertUserData {
            name: "Ada Lovelace".to_string(),
            gender: Gender::Female,
            role: UserRole::Manager,
            bio: Some("Analyst".to_string()),
            email: "ada@example.org".to_string(),
            username: "ada".to_string(),
            password: "s3cret".to_string(),
            activated: true,
            verified: false,
        }
    );
}

#[test]
fn insert_user_does_not_need_a_bio() {
    let mut entries = full_user();
    entries.remove(2);
    let command = InsertUserData::try_from(body(entries)).unwrap();
    assert_eq!(command.bio, None);
    assert_eq!(command.name, "Ada Lovelace");
}

#[test]
fn insert_user_passes_over_keys_it_does_not_know() {
    let mut entries = full_user();
    entries.push(("nickname", RawFieldValue::Null));
    assert!(InsertUserData::try_from(body(entries)).is_ok());
}

#[test]
fn three_invalid_fields_give_three_errors() {
    let mut entries = full_user();
    entries[0] = ("name", RawFieldValue::Number(RawNumber::Unsigned(1)));
    entries[1] = ("email", text("not-an-email"));
    entries[7] = ("gender", text("OTHER"));
    let errors = errors_of(InsertUserData::try_from(body(entries)));
    assert_eq!(
        errors,
        vec![
            ValidationError::InvalidFieldDataType {
                field_name: "name".to_string(),
                expected_type: FieldType::String,
            },
            ValidationError::InvalidEmailFormat { passed_value: "not-an-email".to_string() },
            ValidationError::IncorrectEnumValue {
                field_name: "gender".to_string(),
                passed_value: "OTHER".to_string(),
                expected_values: vec!["MALE".to_string(), "FEMALE".to_string()],
            },
        ]
    );
}

#[test]
fn empty_body_misses_every_required_field_of_a_user() {
    let errors = errors_of(InsertUserData::try_from(body(vec![])));
    assert_eq!(
        errors,
        vec![
            missing("name"),
            missing("email"),
            missing("username"),
            missing("password"),
            missing("verified"),
            missing("activated"),
            missing("gender"),
            missing("userRole"),
        ]
    );
}

#[test]
fn insert_user_holds_texts_to_their_bounds() {
    let mut entries = full_user();
    entries[0] = ("name", text(&"n".repeat(101)));
    entries[2] = ("bio", text(&"b".repeat(256)));
    let errors = errors_of(InsertUserData::try_from(body(entries)));
    assert_eq!(
        errors,
        vec![
            ValidationError::InvalidFieldContentLength {
                field_name: "name".to_string(),
                passed_length: 101,
                expected_length: FieldLength { min: None, max: Some(100) },
            },
            ValidationError::InvalidFieldContentLength {
                field_name: "bio".to_string(),
                passed_length: 256,
                expected_length: FieldLength { min: None, max: Some(255) },
            },
        ]
    );

    let mut entries = full_user();
    entries[0] = ("name", text(&"n".repeat(100)));
    entries[2] = ("bio", text(&"b".repeat(255)));
    assert!(InsertUserData::try_from(body(entries)).is_ok());
}

#[test]
fn earlier_entry_counts_where_a_key_comes_twice() {
    let mut entries = full_user();
    entries.push(("name", RawFieldValue::Null));
    let command = InsertUserData::try_from(body(entries)).unwrap();
    assert_eq!(command.name, "Ada Lovelace");
}

#[test]
fn update_user_accepts_an_empty_body() {
    let command = UpdateUserData::try_from(body(vec![])).unwrap();
    assert_eq!(
        command,
        UpdateUserData {
            name: None,
            gender: None,
            role: None,
            bio: None,
            email: None,
            username: None,
            password: None,
            activated: None,
            verified: None,
        }
    );
}

#[test]
fn update_user_takes_the_fields_that_are_there() {
    let command = UpdateUserData::try_from(body(vec![
        ("email", text("new@example.org")),
        ("userRole", text("ROOT")),
        ("activated", RawFieldValue::Bool(false)),
    ]))
    .unwrap();
    assert_eq!(command.email, Some("new@example.org".to_string()));
    assert_eq!(command.role, Some(UserRole::Root));
    assert_eq!(command.activated, Some(false));
    assert_eq!(command.name, None);
    assert_eq!(command.gender, None);
    assert_eq!(command.verified, None);
}

#[test]
fn update_user_reports_every_invalid_field() {
    let errors = errors_of(UpdateUserData::try_from(body(vec![
        ("userRole", text("KING")),
        ("name", RawFieldValue::Null),
        ("verified", text("yes")),
    ])));
    assert_eq!(
        errors,
        vec![
            ValidationError::InvalidFieldDataType {
                field_name: "name".to_string(),
                expected_type: FieldType::String,
            },
            ValidationError::InvalidFieldDataType {
                field_name: "verified".to_string(),
                expected_type: FieldType::Bool,
            },
            ValidationError::IncorrectEnumValue {
                field_name: "userRole".to_string(),
                passed_value: "KING".to_string(),
                expected_values: vec![
                    "USER".to_string(),
                    "MANAGER".to_string(),
                    "ROOT".to_string()
                ],
            },
        ]
    );
}

#[test]
fn follower_preferences_are_optional() {
    let command = UpdateOrInsertFollowerData::try_from(body(vec![
        ("watchLikes", RawFieldValue::Bool(true)),
        ("watchReplies", RawFieldValue::Bool(false)),
    ]))
    .unwrap();
    assert_eq!(
        command,
        UpdateOrInsertFollowerData {
            watch_new_hesses: None,
            watch_replies: Some(false),
            watch_follows: None,
            watch_likes: Some(true),
        }
    );
}

#[test]
fn follower_preferences_must_be_booleans() {
    let errors = errors_of(UpdateOrInsertFollowerData::try_from(body(vec![
        ("watchReplies", RawFieldValue::Null),
        ("watchFollows", text("true")),
        ("watchNewHesses", RawFieldValue::Bool(true)),
    ])));
    assert_eq!(
        errors,
        vec![
            ValidationError::InvalidFieldDataType {
                field_name: "watchFollows".to_string(),
                expected_type: FieldType::Bool,
            },
            ValidationError::InvalidFieldDataType {
                field_name: "watchReplies".to_string(),
                expected_type: FieldType::Bool,
            },
        ]
    );
}

#[test]
fn privacy_preference_is_cleared_left_or_set() {
    let command = UpdateUserPrivacyPreferencesData::try_from(body(vec![
        ("whoCanReply", RawFieldValue::Null),
        ("whoCanMentionMe", RawFieldValue::Array(vec![text("FOLLOWERS"), text("FOLLOWED")])),
        ("whoCanWatchLikes", RawFieldValue::Array(vec![])),
    ]))
    .unwrap();
    assert_eq!(
        command,
        UpdateUserPrivacyPreferencesData {
            who_can_reply: TriState::SetNull,
            who_can_like: TriState::Absent,
            who_can_mention_me: TriState::SetValue(vec![WhoCan::Followers, WhoCan::Followed]),
            who_can_watch_new_hesses: TriState::Absent,
            who_can_watch_replies: TriState::Absent,
            who_can_watch_follows: TriState::Absent,
            who_can_watch_likes: TriState::SetValue(vec![]),
        }
    );
}

#[test]
fn privacy_preferences_report_every_unknown_audience() {
    let errors = errors_of(UpdateUserPrivacyPreferencesData::try_from(body(vec![
        ("whoCanWatchFollows", text("FOLLOWED")),
        ("whoCanLike", RawFieldValue::Array(vec![text("A"), text("FOLLOWED"), text("B")])),
    ])));
    let tokens = vec!["FOLLOWED".to_string(), "FOLLOWERS".to_string()];
    assert_eq!(
        errors,
        vec![
            ValidationError::IncorrectEnumValue {
                field_name: "whoCanLike".to_string(),
                passed_value: "A".to_string(),
                expected_values: tokens.clone(),
            },
            ValidationError::IncorrectEnumValue {
                field_name: "whoCanLike".to_string(),
                passed_value: "B".to_string(),
                expected_values: tokens,
            },
            ValidationError::InvalidFieldDataType {
                field_name: "whoCanWatchFollows".to_string(),
                expected_type: FieldType::Array,
            },
        ]
    );
}

#[test]
fn command_is_built_from_the_bytes_of_a_request() {
    let bytes = br#"{"watchFollows": true, "watchLikes": false, "other": [1, 2]}"#;
    let command = UpdateOrInsertFollowerData::try_from(parse_body(bytes).unwrap()).unwrap();
    assert_eq!(command.watch_follows, Some(true));
    assert_eq!(command.watch_likes, Some(false));
    assert_eq!(command.watch_new_hesses, None);
    assert_eq!(command.watch_replies, None);
}

#[test]
fn user_is_built_from_the_bytes_of_a_request() {
    let bytes = br#"{
        "userRole": "USER", "gender": "MALE", "activated": true, "verified": true,
        "password": "pw", "username": "grace", "email": "grace@example.org", "name": "Grace"
    }"#;
    let command = InsertUserData::try_from(parse_body(bytes).unwrap()).unwrap();
    assert_eq!(command.name, "Grace");
    assert_eq!(command.email, "grace@example.org");
    assert_eq!(command.gender, Gender::Male);
    assert_eq!(command.role, UserRole::User);
    assert_eq!(command.bio, None);
}

#[test]
fn preferences_are_built_from_the_bytes_of_a_request() {
    let bytes = br#"{"whoCanLike": null, "whoCanReply": ["FOLLOWED", "BOGUS"]}"#;
    let errors =
        errors_of(UpdateUserPrivacyPreferencesData::try_from(parse_body(bytes).unwrap()));
    assert_eq!(
        errors,
        vec![ValidationError::IncorrectEnumValue {
            field_name: "whoCanReply".to_string(),
            passed_value: "BOGUS".to_string(),
            expected_values: vec!["FOLLOWED".to_string(), "FOLLOWERS".to_string()],
        }]
    );
}

#[test]
fn update_changes_the_columns_of_the_fields_it_mentions() {
    let nothing = UpdateUserData::try_from(body(vec![])).unwrap();
    assert!(nothing.changed_columns().is_empty());

    let some = UpdateUserData::try_from(body(vec![
        ("verified", RawFieldValue::Bool(true)),
        ("userRole", text("USER")),
        ("name", text("Ada")),
    ]))
    .unwrap();
    assert_eq!(some.changed_columns(), vec!["name", "role", "verified"]);

    let every = UpdateUserData::try_from(body(full_user())).unwrap();
    assert_eq!(
        every.changed_columns(),
        vec![
            "name",
            "gender",
            "role",
            "bio",
            "email",
            "username",
            "password",
            "activated",
            "verified"
        ]
    );
}

#[test]
fn follower_update_changes_the_columns_of_the_fields_it_mentions() {
    let nothing = UpdateOrInsertFollowerData::try_from(body(vec![])).unwrap();
    assert!(nothing.changed_columns().is_empty());
    let every = UpdateOrInsertFollowerData {
        watch_new_hesses: Some(true),
        watch_replies: Some(false),
        watch_follows: Some(true),
        watch_likes: None,
    };
    assert_eq!(
        every.changed_columns(),
        vec!["watch_follows", "watch_new_hesses", "watch_replies"]
    );
}
