//! Atomic field checks. Each validator looks at one raw value, appends what
//! is wrong with it to a shared accumulator and returns the typed value, if
//! there is one.

use crate::raw::{RawFieldValue, RawValueView};
use crate::response::{push_error, ValidationError, ValidationErrorView};
use vstd::prelude::*;
use vstd::utf8::encode_utf8;

verus! {

/// The shape a field was expected to have, reported on a type mismatch.
#[derive(Debug, Clone, Copy, PartialEq, Eq, Structural)]
pub enum FieldType {
    Array,
    Bool,
    Null,
    Number,
    Object,
    String,
}

/// Inclusive bounds on the length of a field's value; an absent bound does
/// not constrain.
#[derive(Debug, Clone, Copy, PartialEq, Eq, Structural)]
pub struct FieldLength {
    pub min: Option<usize>,
    pub max: Option<usize>,
}

impl FieldLength {
    /// Whether `len` violates the lower bound.
    pub open spec fn too_short(self, len: nat) -> bool {
        self.min matches Some(min) && len < min
    }

    /// Whether `len` violates the upper bound.
    pub open spec fn too_long(self, len: nat) -> bool {
        self.max matches Some(max) && len > max
    }

    /// Whether `len` lies within both bounds.
    pub open spec fn admits(self, len: nat) -> bool {
        !self.too_short(len) && !self.too_long(len)
    }
}

/// The length of a text as the bounds count it: its number of UTF-8 bytes.
pub open spec fn text_len(text: Seq<char>) -> nat {
    encode_utf8(text).len()
}

/// What a validator reports for a field that the body does not hold.
pub open spec fn missing_field_errors(name: Seq<char>, optional: bool) -> Seq<
    ValidationErrorView,
> {
    if optional {
        seq![]
    } else {
        seq![ValidationErrorView::RequiredFieldMissing { field_name: name }]
    }
}

/// What a validator reports for a field of the wrong shape.
pub open spec fn type_mismatch_errors(name: Seq<char>, expected: FieldType) -> Seq<
    ValidationErrorView,
> {
    seq![ValidationErrorView::InvalidFieldDataType { field_name: name, expected_type: expected }]
}

/// The text that the string validator yields: the field's own text, if the
/// field is a string whose length is within the bounds.
pub open spec fn string_field_value(value: RawValueView, bounds: FieldLength) -> Option<
    Seq<char>,
> {
    match value {
        RawValueView::String(text) => if bounds.admits(text_len(text)) {
            Some(text)
        } else {
            None
        },
        _ => None,
    }
}

/// What the string validator reports: nothing for a string within the
/// bounds, one length error for a string outside them, one type error for
/// any other value, and the missing-field rule for an absent one.
pub open spec fn string_field_errors(
    value: RawValueView,
    name: Seq<char>,
    bounds: FieldLength,
    optional: bool,
) -> Seq<ValidationErrorView> {
    match value {
        RawValueView::String(text) => if bounds.admits(text_len(text)) {
            seq![]
        } else {
            seq![
                ValidationErrorView::InvalidFieldContentLength {
                    field_name: name,
                    passed_length: text_len(text),
                    expected_length: bounds,
                },
            ]
        },
        RawValueView::Missing => missing_field_errors(name, optional),
        _ => type_mismatch_errors(name, FieldType::String),
    }
}

/// Records that a required field is absent; an optional one is passed over.
fn report_missing(name: &str, errors: &mut Vec<ValidationError>, optional: bool)
    ensures
        final(errors).deep_view() == old(errors).deep_view() + missing_field_errors(
            name@,
            optional,
        ),
{
    if !optional {
        push_error(errors, ValidationError::RequiredFieldMissing { field_name: name.to_owned() });
    }
    assert(errors.deep_view() =~= old(errors).deep_view() + missing_field_errors(name@, optional));
}

/// Records that a field does not have the expected shape.
fn report_type_mismatch(name: &str, expected: FieldType, errors: &mut Vec<ValidationError>)
    ensures
        final(errors).deep_view() == old(errors).deep_view() + type_mismatch_errors(
            name@,
            expected,
        ),
{
    push_error(
        errors,
        ValidationError::InvalidFieldDataType {
            field_name: name.to_owned(),
            expected_type: expected,
        },
    );
    assert(errors.deep_view() =~= old(errors).deep_view() + type_mismatch_errors(name@, expected));
}

/// Validates a field that must hold a string whose length in bytes lies
/// within `field_length`. The lower bound is tested before the upper one,
/// and a string that breaks a bound is reported once.
pub fn validate_string_field(
    value: &RawFieldValue,
    name: &str,
    field_length: FieldLength,
    errors: &mut Vec<ValidationError>,
    optional: bool,
) -> (r: Option<String>)
    ensures
        r.deep_view() == string_field_value(value.deep_view(), field_length),
        final(errors).deep_view() == old(errors).deep_view() + string_field_errors(
            value.deep_view(),
            name@,
            field_length,
            optional,
        ),
{
    match value {
        RawFieldValue::String(text) => {
            let len = text.as_str().as_bytes().len();
            let too_short = match field_length.min {
                Some(min) => len < min,
                None => false,
            };
            let too_long = match field_length.max {
                Some(max) => len > max,
                None => false,
            };
            if too_short || too_long {
                push_error(
                    errors,
                    ValidationError::InvalidFieldContentLength {
                        field_name: name.to_owned(),
                        passed_length: len,
                        expected_length: field_length,
                    },
                );
                assert(errors.deep_view() =~= old(errors).deep_view() + string_field_errors(
                    value.deep_view(),
                    name@,
                    field_length,
                    optional,
                ));
                None
            } else {
                assert(errors.deep_view() =~= old(errors).deep_view() + string_field_errors(
                    value.deep_view(),
                    name@,
                    field_length,
                    optional,
                ));
                Some(text.clone())
            }
        },
        RawFieldValue::Missing => {
            report_missing(name, errors, optional);
            None
        },
        _ => {
            report_type_mismatch(name, FieldType::String, errors);
            None
        },
    }
}

/// The flag that the boolean validator yields.
pub open spec fn boolean_field_value(value: RawValueView) -> Option<bool> {
    match value {
        RawValueView::Bool(flag) => Some(flag),
        _ => None,
    }
}

/// What the boolean validator reports.
pub open spec fn boolean_field_errors(value: RawValueView, name: Seq<char>, optional: bool) -> Seq<
    ValidationErrorView,
> {
    match value {
        RawValueView::Bool(_) => seq![],
        RawValueView::Missing => missing_field_errors(name, optional),
        _ => type_mismatch_errors(name, FieldType::Bool),
    }
}

/// Validates a field that must hold `true` or `false`.
pub fn validate_boolean_field(
    value: &RawFieldValue,
    name: &str,
    errors: &mut Vec<ValidationError>,
    optional: bool,
) -> (r: Option<bool>)
    ensures
        r == boolean_field_value(value.deep_view()),
        final(errors).deep_view() == old(errors).deep_view() + boolean_field_errors(
            value.deep_view(),
            name@,
            optional,
        ),
{
    match value {
        RawFieldValue::Bool(flag) => {
            assert(errors.deep_view() =~= old(errors).deep_view() + boolean_field_errors(
                value.deep_view(),
                name@,
                optional,
            ));
            Some(*flag)
        },
        RawFieldValue::Missing => {
            report_missing(name, errors, optional);
            None
        },
        _ => {
            report_type_mismatch(name, FieldType::Bool, errors);
            None
        },
    }
}

/// What a request says about an attribute that can be cleared: nothing, that
/// it is to be cleared, or the value it is to take.
#[derive(Debug, Clone, Copy, PartialEq, Eq)]
pub enum TriState<T> {
    Absent,
    SetNull,
    SetValue(T),
}

impl<T: DeepView> DeepView for TriState<T> {
    type V = TriState<T::V>;

    open spec fn deep_view(&self) -> TriState<T::V> {
        match self {
            TriState::Absent => TriState::Absent,
            TriState::SetNull => TriState::SetNull,
            TriState::SetValue(value) => TriState::SetValue(value.deep_view()),
        }
    }
}

/// What the array validator yields: the elements of an array, the request
/// to clear for a `null` where that is allowed, and nothing otherwise.
pub open spec fn array_field_value(value: RawValueView, nullable: bool) -> TriState<
    Seq<RawValueView>,
> {
    match value {
        RawValueView::Array(items) => TriState::SetValue(items),
        RawValueView::Null => if nullable {
            TriState::SetNull
        } else {
            TriState::Absent
        },
        _ => TriState::Absent,
    }
}

/// What the array validator reports.
pub open spec fn array_field_errors(
    value: RawValueView,
    name: Seq<char>,
    optional: bool,
    nullable: bool,
) -> Seq<ValidationErrorView> {
    match value {
        RawValueView::Array(_) => seq![],
        RawValueView::Null => if nullable {
            seq![]
        } else {
            type_mismatch_errors(name, FieldType::Array)
        },
        RawValueView::Missing => missing_field_errors(name, optional),
        _ => type_mismatch_errors(name, FieldType::Array),
    }
}

/// Validates a field that must hold an array, whatever its elements are.
/// With `nullable`, a `null` asks for the attribute to be cleared.
pub fn validate_array_field<'a>(
    value: &'a RawFieldValue,
    name: &str,
    errors: &mut Vec<ValidationError>,
    optional: bool,
    nullable: bool,
) -> (r: TriState<&'a Vec<RawFieldValue>>)
    ensures
        r.deep_view() == array_field_value(value.deep_view(), nullable),
        final(errors).deep_view() == old(errors).deep_view() + array_field_errors(
            value.deep_view(),
            name@,
            optional,
            nullable,
        ),
{
    match value {
        RawFieldValue::Array(items) => {
            proof {
                RawFieldValue::lemma_array_view(*items);
            }
            assert(errors.deep_view() =~= old(errors).deep_view() + array_field_errors(
                value.deep_view(),
                name@,
                optional,
                nullable,
            ));
            TriState::SetValue(items)
        },
        RawFieldValue::Null => {
            if nullable {
                assert(errors.deep_view() =~= old(errors).deep_view() + array_field_errors(
                    value.deep_view(),
                    name@,
                    optional,
                    nullable,
                ));
                TriState::SetNull
            } else {
                report_type_mismatch(name, FieldType::Array, errors);
                TriState::Absent
            }
        },
        RawFieldValue::Missing => {
            report_missing(name, errors, optional);
            TriState::Absent
        },
        _ => {
            report_type_mismatch(name, FieldType::Array, errors);
            TriState::Absent
        },
    }
}

/// A token table as the contracts read it: each variant with the text of
/// its token.
pub open spec fn table_view<E>(table: Seq<(E, String)>) -> Seq<(E, Seq<char>)> {
    Seq::new(table.len(), |i: int| (table[i].0, table[i].1@))
}

/// The variant of the first row of `table`, from row `from` on, whose token
/// is `token`.
pub open spec fn find_token<E>(table: Seq<(E, Seq<char>)>, token: Seq<char>, from: int) -> Option<
    E,
>
    decreases table.len() - from,
{
    if from < 0 || from >= table.len() {
        None
    } else if table[from].1 == token {
        Some(table[from].0)
    } else {
        find_token(table, token, from + 1)
    }
}

/// The tokens of a table, in the table's order.
pub open spec fn token_list<E>(table: Seq<(E, Seq<char>)>) -> Seq<Seq<char>> {
    Seq::new(table.len(), |i: int| table[i].1)
}

/// The variant that the enum validator yields: that of the first row whose
/// token is the field's text, letter for letter.
pub open spec fn enum_field_value<E>(value: RawValueView, table: Seq<(E, Seq<char>)>) -> Option<
    E,
> {
    match value {
        RawValueView::String(text) => find_token(table, text, 0),
        _ => None,
    }
}

/// What the enum validator reports: for a text that is no token, the text
/// and every accepted token.
pub open spec fn enum_field_errors<E>(
    value: RawValueView,
    name: Seq<char>,
    table: Seq<(E, Seq<char>)>,
    optional: bool,
) -> Seq<ValidationErrorView> {
    match value {
        RawValueView::String(text) => if find_token(table, text, 0) is Some {
            seq![]
        } else {
            seq![
                ValidationErrorView::IncorrectEnumValue {
                    field_name: name,
                    passed_value: text,
                    expected_values: token_list(table),
                },
            ]
        },
        RawValueView::Missing => missing_field_errors(name, optional),
        _ => type_mismatch_errors(name, FieldType::String),
    }
}

/// Whether no two rows of a table have one token.
pub open spec fn tokens_are_distinct<E>(table: Seq<(E, Seq<char>)>) -> bool {
    forall|i: int, j: int|
        0 <= i < j < table.len() ==> (#[trigger] table[i]).1 != (#[trigger] table[j]).1
}

/// In a table whose tokens are distinct, the token of a row names the
/// variant of that row, wherever the row stands; and a text that is the
/// token of no row names no variant, whatever the table is.
pub proof fn lemma_token_names_its_row<E>(
    table: Seq<(E, Seq<char>)>,
    token: Seq<char>,
    row: int,
    from: int,
)
    requires
        0 <= from <= row < table.len(),
    ensures
        tokens_are_distinct(table) && table[row].1 == token ==> find_token(table, token, from)
            == Some(table[row].0),
        (forall|i: int| from <= i < table.len() ==> (#[trigger] table[i]).1 != token)
            ==> find_token(table, token, from) is None,
    decreases row - from,
{
    if from < row {
        lemma_token_names_its_row(table, token, row, from + 1);
    } else {
        lemma_unknown_token_names_nothing(table, token, from + 1);
    }
}

/// A text that is the token of no row from `from` on names no variant.
proof fn lemma_unknown_token_names_nothing<E>(
    table: Seq<(E, Seq<char>)>,
    token: Seq<char>,
    from: int,
)
    requires
        0 <= from,
    ensures
        (forall|i: int| from <= i < table.len() ==> (#[trigger] table[i]).1 != token)
            ==> find_token(table, token, from) is None,
    decreases table.len() - from,
{
    if from < table.len() {
        lemma_unknown_token_names_nothing(table, token, from + 1);
    }
}

/// The tokens of a table, copied out in the table's order.
fn accepted_tokens<E>(table: &Vec<(E, String)>) -> (tokens: Vec<String>)
    ensures
        tokens.deep_view() == token_list(table_view(table@)),
{
    let mut tokens: Vec<String> = Vec::new();
    let mut i: usize = 0;
    while i < table.len()
        invariant
            i <= table.len(),
            tokens.len() == i,
            forall|k: int| 0 <= k < i ==> tokens[k]@ == table[k].1@,
        decreases table.len() - i,
    {
        tokens.push(table[i].1.clone());
        i += 1;
    }
    assert(tokens.deep_view() =~= token_list(table_view(table@)));
    tokens
}

/// Validates a field that must hold one of the tokens of `expected_values`
/// and yields the variant that the token stands for. Tokens are compared
/// letter for letter; of two rows with one token the first counts.
pub fn validate_enum_field<E: Copy>(
    value: &RawFieldValue,
    name: &str,
    expected_values: &Vec<(E, String)>,
    errors: &mut Vec<ValidationError>,
    optional: bool,
) -> (r: Option<E>)
    ensures
        r == enum_field_value(value.deep_view(), table_view(expected_values@)),
        final(errors).deep_view() == old(errors).deep_view() + enum_field_errors(
            value.deep_view(),
            name@,
            table_view(expected_values@),
            optional,
        ),
{
    let ghost table = table_view(expected_values@);
    match value {
        RawFieldValue::String(text) => {
            let mut i: usize = 0;
            while i < expected_values.len()
                invariant
                    i <= expected_values.len(),
                    table == table_view(expected_values@),
                    find_token(table, text@, 0) == find_token(table, text@, i as int),
                    errors.deep_view() == old(errors).deep_view(),
                    value.deep_view() == RawValueView::String(text@),
                decreases expected_values.len() - i,
            {
                if expected_values[i].1 == *text {
                    assert(errors.deep_view() =~= old(errors).deep_view() + enum_field_errors(
                        value.deep_view(),
                        name@,
                        table,
                        optional,
                    ));
                    return Some(expected_values[i].0);
                }
                i += 1;
            }
            let tokens = accepted_tokens(expected_values);
            push_error(
                errors,
                ValidationError::IncorrectEnumValue {
                    field_name: name.to_owned(),
                    passed_value: text.clone(),
                    expected_values: tokens,
                },
            );
            assert(errors.deep_view() =~= old(errors).deep_view() + enum_field_errors(
                value.deep_view(),
                name@,
                table,
                optional,
            ));
            None
        },
        RawFieldValue::Missing => {
            report_missing(name, errors, optional);
            None
        },
        _ => {
            report_type_mismatch(name, FieldType::String, errors);
            None
        },
    }
}

/// What the validation of the first `upto` elements of an array against a
/// token table reports: each element's own errors, in the array's order.
pub open spec fn element_errors<E>(
    items: Seq<RawValueView>,
    name: Seq<char>,
    table: Seq<(E, Seq<char>)>,
    upto: int,
) -> Seq<ValidationErrorView>
    decreases upto,
{
    if upto <= 0 || upto > items.len() {
        seq![]
    } else {
        element_errors(items, name, table, upto - 1) + enum_field_errors(
            items[upto - 1],
            name,
            table,
            false,
        )
    }
}

/// Whether every element of an array stands for a variant.
pub open spec fn all_elements_valid<E>(
    items: Seq<RawValueView>,
    table: Seq<(E, Seq<char>)>,
) -> bool {
    forall|i: int| 0 <= i < items.len() ==> (#[trigger] enum_field_value(items[i], table)) is Some
}

/// The variants that the elements of an array stand for.
pub open spec fn element_values<E>(
    items: Seq<RawValueView>,
    table: Seq<(E, Seq<char>)>,
) -> Seq<E> {
    Seq::new(items.len(), |i: int| enum_field_value(items[i], table).unwrap())
}

/// What the enum-array validator yields: the variants of an array whose
/// elements all stand for one, the request to clear for an allowed `null`,
/// and nothing otherwise.
pub open spec fn enum_array_field_value<E>(
    value: RawValueView,
    table: Seq<(E, Seq<char>)>,
    nullable: bool,
) -> TriState<Seq<E>> {
    match array_field_value(value, nullable) {
        TriState::SetValue(items) => if all_elements_valid(items, table) {
            TriState::SetValue(element_values(items, table))
        } else {
            TriState::Absent
        },
        TriState::SetNull => TriState::SetNull,
        TriState::Absent => TriState::Absent,
    }
}

/// What the enum-array validator reports: the array validator's errors,
/// and for an array the errors of every element.
pub open spec fn enum_array_field_errors<E>(
    value: RawValueView,
    name: Seq<char>,
    table: Seq<(E, Seq<char>)>,
    optional: bool,
    nullable: bool,
) -> Seq<ValidationErrorView> {
    array_field_errors(value, name, optional, nullable) + match array_field_value(
        value,
        nullable,
    ) {
        TriState::SetValue(items) => element_errors(items, name, table, items.len() as int),
        _ => seq![],
    }
}

/// A tri-state list as the contracts read it.
pub open spec fn list_view<E>(list: TriState<Vec<E>>) -> TriState<Seq<E>> {
    match list {
        TriState::Absent => TriState::Absent,
        TriState::SetNull => TriState::SetNull,
        TriState::SetValue(items) => TriState::SetValue(items@),
    }
}

/// Validates a field that must hold an array of tokens of `expected_values`.
/// Every element is validated, whatever became of those before it, and each
/// one that is no token is reported on its own; the field yields its list
/// of variants only if every element stood for one.
pub fn validate_enum_array_field<E: Copy>(
    value: &RawFieldValue,
    name: &str,
    expected_values: &Vec<(E, String)>,
    errors: &mut Vec<ValidationError>,
    optional: bool,
    nullable: bool,
) -> (r: TriState<Vec<E>>)
    ensures
        list_view(r) == enum_array_field_value(
            value.deep_view(),
            table_view(expected_values@),
            nullable,
        ),
        final(errors).deep_view() == old(errors).deep_view() + enum_array_field_errors(
            value.deep_view(),
            name@,
            table_view(expected_values@),
            optional,
            nullable,
        ),
{
    let ghost table = table_view(expected_values@);
    match validate_array_field(value, name, errors, optional, nullable) {
        TriState::SetValue(items) => {
            let ghost views = items.deep_view();
            let ghost before = errors.deep_view();
            let mut variants: Vec<E> = Vec::new();
            let mut all_valid = true;
            let mut i: usize = 0;
            while i < items.len()
                invariant
                    i <= items.len(),
                    views == items.deep_view(),
                    table == table_view(expected_values@),
                    errors.deep_view() == before + element_errors(views, name@, table, i as int),
                    all_valid == (forall|k: int|
                        0 <= k < i ==> (#[trigger] enum_field_value(views[k], table)) is Some),
                    all_valid ==> variants@.len() == i,
                    all_valid ==> forall|k: int|
                        0 <= k < i ==> variants@[k] == (#[trigger] enum_field_value(
                            views[k],
                            table,
                        )).unwrap(),
                decreases items.len() - i,
            {
                let element = validate_enum_field(&items[i], name, expected_values, errors, false);
                assert(items[i as int].deep_view() == views[i as int]);
                assert(errors.deep_view() =~= before + element_errors(
                    views,
                    name@,
                    table,
                    i + 1,
                ));
                match element {
                    Some(variant) => {
                        if all_valid {
                            variants.push(variant);
                        }
                    },
                    None => {
                        all_valid = false;
                    },
                }
                i += 1;
            }
            assert(errors.deep_view() =~= old(errors).deep_view() + enum_array_field_errors(
                value.deep_view(),
                name@,
                table,
                optional,
                nullable,
            ));
            if all_valid {
                assert(variants@ =~= element_values(views, table));
                TriState::SetValue(variants)
            } else {
                TriState::Absent
            }
        },
        TriState::SetNull => {
            assert(errors.deep_view() =~= old(errors).deep_view() + enum_array_field_errors(
                value.deep_view(),
                name@,
                table,
                optional,
                nullable,
            ));
            TriState::SetNull
        },
        TriState::Absent => {
            assert(errors.deep_view() =~= old(errors).deep_view() + enum_array_field_errors(
                value.deep_view(),
                name@,
                table,
                optional,
                nullable,
            ));
            TriState::Absent
        },
    }
}

/// The pattern that an e-mail address must match from its first character
/// to its last.
pub const EMAIL_PATTERN: &'static str = r"^[A-Za-z0-9._%+-]+@[A-Za-z0-9.-]+\.[A-Za-z]{2,}$";

/// The pattern that a telephone number must match from its first character
/// to its last.
pub const TELEPHONE_PATTERN: &'static str =
    r"^[\+]?[(]?[0-9]{3}[)]?[-\s\.]?[0-9]{3}[-\s\.]?[0-9]{4,6}$";

/// What the `regex` crate says of a pattern and a text: `None` where the
/// pattern does not compile, else whether the pattern matches somewhere in
/// the text.
pub uninterp spec fn regex_search(pattern: Seq<char>, haystack: Seq<char>) -> Option<bool>;

/// Compiles `pattern` with `regex::Regex::new` and searches `haystack` with
/// `Regex::is_match`. The contract gives the outcome a name and says no more
/// of it: `None` stands for a pattern that the crate refuses.
#[verifier::external_body]
fn regex_is_match(pattern: &str, haystack: &str) -> (r: Option<bool>)
    ensures
        r == regex_search(pattern@, haystack@),
{
    match regex::Regex::new(pattern) {
        Ok(compiled) => Some(compiled.is_match(haystack)),
        Err(_) => None,
    }
}

/// Which of the two text formats a field must have.
#[derive(Debug, Clone, Copy, PartialEq, Eq, Structural)]
pub enum TextFormat {
    Email,
    Telephone,
}

impl TextFormat {
    /// The pattern of the format.
    pub open spec fn pattern(self) -> Seq<char> {
        match self {
            TextFormat::Email => EMAIL_PATTERN@,
            TextFormat::Telephone => TELEPHONE_PATTERN@,
        }
    }

    /// The error that reports a text which does not have the format.
    pub open spec fn mismatch(self, text: Seq<char>) -> ValidationErrorView {
        match self {
            TextFormat::Email => ValidationErrorView::InvalidEmailFormat { passed_value: text },
            TextFormat::Telephone => ValidationErrorView::InvalidTelephoneFormat {
                passed_value: text,
            },
        }
    }
}

/// What a format check reports for a text, given the outcome of the search:
/// nothing if the pattern matched, else the format's own error.
pub open spec fn format_errors(format: TextFormat, text: Seq<char>, matched: Option<bool>) -> Seq<
    ValidationErrorView,
> {
    if matched == Some(true) {
        seq![]
    } else {
        seq![format.mismatch(text)]
    }
}

/// The text that a formatted-text validator yields: that of the string
/// validator, if the format's pattern matches it.
pub open spec fn formatted_field_value(
    format: TextFormat,
    value: RawValueView,
    bounds: FieldLength,
) -> Option<Seq<char>> {
    match string_field_value(value, bounds) {
        Some(text) => if regex_search(format.pattern(), text) == Some(true) {
            Some(text)
        } else {
            None
        },
        None => None,
    }
}

/// What a formatted-text validator reports: the string validator's errors,
/// and after them the format's error for a string that passed the string
/// validator and does not match the pattern.
pub open spec fn formatted_field_errors(
    format: TextFormat,
    value: RawValueView,
    name: Seq<char>,
    bounds: FieldLength,
    optional: bool,
) -> Seq<ValidationErrorView> {
    string_field_errors(value, name, bounds, optional) + match string_field_value(value, bounds) {
        Some(text) => format_errors(format, text, regex_search(format.pattern(), text)),
        None => seq![],
    }
}

/// Decides what becomes of a text once its pattern has been searched for:
/// with `matched` other than `Some(true)` the format's error is appended and
/// the text is withheld.
pub fn check_text_format(
    format: TextFormat,
    text: String,
    matched: Option<bool>,
    errors: &mut Vec<ValidationError>,
) -> (r: Option<String>)
    ensures
        r.deep_view() == (if matched == Some(true) {
            Some(text@)
        } else {
            None
        }),
        final(errors).deep_view() == old(errors).deep_view() + format_errors(
            format,
            text@,
            matched,
        ),
{
    let accepted = match matched {
        Some(found) => found,
        None => false,
    };
    if accepted {
        assert(errors.deep_view() =~= old(errors).deep_view() + format_errors(
            format,
            text@,
            matched,
        ));
        Some(text)
    } else {
        let error = match format {
            TextFormat::Email => ValidationError::InvalidEmailFormat { passed_value: text },
            TextFormat::Telephone => ValidationError::InvalidTelephoneFormat {
                passed_value: text,
            },
        };
        push_error(errors, error);
        assert(errors.deep_view() =~= old(errors).deep_view() + format_errors(
            format,
            text@,
            matched,
        ));
        None
    }
}

/// Validates a string field and then holds the string to `format`.
fn validate_formatted_field(
    format: TextFormat,
    value: &RawFieldValue,
    name: &str,
    field_length: FieldLength,
    errors: &mut Vec<ValidationError>,
    optional: bool,
) -> (r: Option<String>)
    ensures
        r.deep_view() == formatted_field_value(format, value.deep_view(), field_length),
        final(errors).deep_view() == old(errors).deep_view() + formatted_field_errors(
            format,
            value.deep_view(),
            name@,
            field_length,
            optional,
        ),
{
    let candidate = validate_string_field(value, name, field_length, errors, optional);
    let ghost after_string = errors.deep_view();
    match candidate {
        Some(text) => {
            let pattern = match format {
                TextFormat::Email => EMAIL_PATTERN,
                TextFormat::Telephone => TELEPHONE_PATTERN,
            };
            let matched = regex_is_match(pattern, text.as_str());
            let r = check_text_format(format, text, matched, errors);
            assert(errors.deep_view() =~= old(errors).deep_view() + formatted_field_errors(
                format,
                value.deep_view(),
                name@,
                field_length,
                optional,
            ));
            r
        },
        None => {
            assert(errors.deep_view() =~= old(errors).deep_view() + formatted_field_errors(
                format,
                value.deep_view(),
                name@,
                field_length,
                optional,
            ));
            None
        },
    }
}

/// Validates a field that must hold an e-mail address: a string within
/// `field_length` that matches [`EMAIL_PATTERN`].
pub fn validate_email_field(
    value: &RawFieldValue,
    name: &str,
    field_length: FieldLength,
    errors: &mut Vec<ValidationError>,
    optional: bool,
) -> (r: Option<String>)
    ensures
        r.deep_view() == formatted_field_value(
            TextFormat::Email,
            value.deep_view(),
            field_length,
        ),
        final(errors).deep_view() == old(errors).deep_view() + formatted_field_errors(
            TextFormat::Email,
            value.deep_view(),
            name@,
            field_length,
            optional,
        ),
{
    validate_formatted_field(TextFormat::Email, value, name, field_length, errors, optional)
}

/// Validates a field that must hold a telephone number: a string within
/// `field_length` that matches [`TELEPHONE_PATTERN`].
pub fn validate_telephone_number_field(
    value: &RawFieldValue,
    name: &str,
    field_length: FieldLength,
    errors: &mut Vec<ValidationError>,
    optional: bool,
) -> (r: Option<String>)
    ensures
        r.deep_view() == formatted_field_value(
            TextFormat::Telephone,
            value.deep_view(),
            field_length,
        ),
        final(errors).deep_view() == old(errors).deep_view() + formatted_field_errors(
            TextFormat::Telephone,
            value.deep_view(),
            name@,
            field_length,
            optional,
        ),
{
    validate_formatted_field(TextFormat::Telephone, value, name, field_length, errors, optional)
}

/// A value within every constraint is yielded and nothing is reported,
/// whichever validator reads it.
pub proof fn lemma_valid_value_is_yielded<E>(
    text: Seq<char>,
    flag: bool,
    items: Seq<RawValueView>,
    name: Seq<char>,
    bounds: FieldLength,
    table: Seq<(E, Seq<char>)>,
    format: TextFormat,
    optional: bool,
    nullable: bool,
)
    ensures
        bounds.admits(text_len(text)) ==> string_field_value(RawValueView::String(text), bounds)
            == Some(text) && string_field_errors(
            RawValueView::String(text),
            name,
            bounds,
            optional,
        ) == Seq::<ValidationErrorView>::empty(),
        bounds.admits(text_len(text)) && regex_search(format.pattern(), text) == Some(true)
            ==> formatted_field_value(format, RawValueView::String(text), bounds) == Some(text)
            && formatted_field_errors(format, RawValueView::String(text), name, bounds, optional)
            == Seq::<ValidationErrorView>::empty(),
        boolean_field_value(RawValueView::Bool(flag)) == Some(flag),
        boolean_field_errors(RawValueView::Bool(flag), name, optional) == Seq::<
            ValidationErrorView,
        >::empty(),
        find_token(table, text, 0) is Some ==> enum_field_value(RawValueView::String(text), table)
            == find_token(table, text, 0) && enum_field_errors(
            RawValueView::String(text),
            name,
            table,
            optional,
        ) == Seq::<ValidationErrorView>::empty(),
        array_field_value(RawValueView::Array(items), nullable) == TriState::SetValue(items),
        array_field_errors(RawValueView::Array(items), name, optional, nullable) == Seq::<
            ValidationErrorView,
        >::empty(),
{
    if bounds.admits(text_len(text)) && regex_search(format.pattern(), text) == Some(true) {
        assert(formatted_field_errors(format, RawValueView::String(text), name, bounds, optional)
            =~= Seq::<ValidationErrorView>::empty());
    }
}

/// An optional field that the body does not hold yields nothing and is
/// not reported, whichever validator reads it.
pub proof fn lemma_missing_optional_is_passed_over<E>(
    name: Seq<char>,
    bounds: FieldLength,
    table: Seq<(E, Seq<char>)>,
    format: TextFormat,
    nullable: bool,
)
    ensures
        string_field_value(RawValueView::Missing, bounds) is None,
        string_field_errors(RawValueView::Missing, name, bounds, true).len() == 0,
        formatted_field_value(format, RawValueView::Missing, bounds) is None,
        formatted_field_errors(format, RawValueView::Missing, name, bounds, true).len() == 0,
        boolean_field_value(RawValueView::Missing) is None,
        boolean_field_errors(RawValueView::Missing, name, true).len() == 0,
        enum_field_value(RawValueView::Missing, table) is None,
        enum_field_errors(RawValueView::Missing, name, table, true).len() == 0,
        array_field_value(RawValueView::Missing, nullable) == TriState::<
            Seq<RawValueView>,
        >::Absent,
        array_field_errors(RawValueView::Missing, name, true, nullable).len() == 0,
        enum_array_field_value(RawValueView::Missing, table, nullable) == TriState::<
            Seq<E>,
        >::Absent,
        enum_array_field_errors(RawValueView::Missing, name, table, true, nullable).len() == 0,
{
}

/// A required field that the body does not hold yields nothing and is
/// reported once, as missing and by its name, whichever validator reads it.
pub proof fn lemma_missing_required_is_reported_once<E>(
    name: Seq<char>,
    bounds: FieldLength,
    table: Seq<(E, Seq<char>)>,
    format: TextFormat,
    nullable: bool,
)
    ensures
        string_field_value(RawValueView::Missing, bounds) is None,
        string_field_errors(RawValueView::Missing, name, bounds, false) == missing_field_errors(
            name,
            false,
        ),
        formatted_field_value(format, RawValueView::Missing, bounds) is None,
        formatted_field_errors(format, RawValueView::Missing, name, bounds, false)
            == missing_field_errors(name, false),
        boolean_field_value(RawValueView::Missing) is None,
        boolean_field_errors(RawValueView::Missing, name, false) == missing_field_errors(
            name,
            false,
        ),
        enum_field_value(RawValueView::Missing, table) is None,
        enum_field_errors(RawValueView::Missing, name, table, false) == missing_field_errors(
            name,
            false,
        ),
        array_field_value(RawValueView::Missing, nullable) == TriState::<
            Seq<RawValueView>,
        >::Absent,
        array_field_errors(RawValueView::Missing, name, false, nullable) == missing_field_errors(
            name,
            false,
        ),
        enum_array_field_value(RawValueView::Missing, table, nullable) == TriState::<
            Seq<E>,
        >::Absent,
        enum_array_field_errors(RawValueView::Missing, name, table, false, nullable)
            == missing_field_errors(name, false),
        missing_field_errors(name, false).len() == 1,
        missing_field_errors(name, false)[0] == (ValidationErrorView::RequiredFieldMissing {
            field_name: name,
        }),
{
    assert(formatted_field_errors(format, RawValueView::Missing, name, bounds, false)
        =~= missing_field_errors(name, false));
    assert(enum_array_field_errors(RawValueView::Missing, name, table, false, nullable)
        =~= missing_field_errors(name, false));
}

/// A string whose length breaks a bound is reported once, with its length
/// and the bounds, whether it breaks the lower bound, the upper one or
/// both; and no value makes the string validator report twice.
pub proof fn lemma_length_is_reported_once(
    value: RawValueView,
    text: Seq<char>,
    name: Seq<char>,
    bounds: FieldLength,
    optional: bool,
)
    ensures
        string_field_errors(value, name, bounds, optional).len() <= 1,
        bounds.too_short(text_len(text)) || bounds.too_long(text_len(text))
            ==> string_field_value(RawValueView::String(text), bounds) is None
            && string_field_errors(RawValueView::String(text), name, bounds, optional) == seq![
            ValidationErrorView::InvalidFieldContentLength {
                field_name: name,
                passed_length: text_len(text),
                expected_length: bounds,
            },
        ],
{
}

/// A string within its bounds that does not match the pattern of its
/// format is reported once, as ill-formed, and not for its length; and a
/// string that the string validator turns down is not held to the format,
/// so that no value is reported twice.
pub proof fn lemma_format_is_reported_once(
    format: TextFormat,
    value: RawValueView,
    text: Seq<char>,
    name: Seq<char>,
    bounds: FieldLength,
    optional: bool,
)
    ensures
        formatted_field_errors(format, value, name, bounds, optional).len() <= 1,
        bounds.admits(text_len(text)) && regex_search(format.pattern(), text) != Some(true)
            ==> formatted_field_value(format, RawValueView::String(text), bounds) is None
            && formatted_field_errors(format, RawValueView::String(text), name, bounds, optional)
            == seq![format.mismatch(text)],
{
    if bounds.admits(text_len(text)) && regex_search(format.pattern(), text) != Some(true) {
        assert(formatted_field_errors(format, RawValueView::String(text), name, bounds, optional)
            =~= seq![format.mismatch(text)]);
    }
}

/// The three things that a request can say of an attribute that can be
/// cleared: a key with `null` clears it, a key that is not there leaves it
/// as it is, and a key with a list sets it; none of the three is reported.
pub proof fn lemma_tri_state<E>(
    items: Seq<RawValueView>,
    name: Seq<char>,
    table: Seq<(E, Seq<char>)>,
)
    ensures
        array_field_value(RawValueView::Null, true) == TriState::<Seq<RawValueView>>::SetNull,
        array_field_value(RawValueView::Missing, true) == TriState::<Seq<RawValueView>>::Absent,
        array_field_value(RawValueView::Array(items), true) == TriState::SetValue(items),
        array_field_errors(RawValueView::Null, name, true, true).len() == 0,
        array_field_errors(RawValueView::Missing, name, true, true).len() == 0,
        array_field_errors(RawValueView::Array(items), name, true, true).len() == 0,
        enum_array_field_value(RawValueView::Null, table, true) == TriState::<Seq<E>>::SetNull,
        enum_array_field_value(RawValueView::Missing, table, true) == TriState::<Seq<E>>::Absent,
        all_elements_valid(items, table) ==> enum_array_field_value(
            RawValueView::Array(items),
            table,
            true,
        ) == TriState::SetValue(element_values(items, table)),
        enum_array_field_errors(RawValueView::Null, name, table, true, true).len() == 0,
        enum_array_field_errors(RawValueView::Missing, name, table, true, true).len() == 0,
{
}

/// The number of the first `upto` elements of an array that stand for no
/// variant.
pub open spec fn invalid_elements<E>(
    items: Seq<RawValueView>,
    table: Seq<(E, Seq<char>)>,
    upto: int,
) -> nat
    decreases upto,
{
    if upto <= 0 || upto > items.len() {
        0
    } else {
        invalid_elements(items, table, upto - 1) + if enum_field_value(items[upto - 1], table)
            is Some {
            0nat
        } else {
            1nat
        }
    }
}

/// Every element of an array that stands for no variant is reported, each
/// one once, and none of the others is: the errors of an array are as many
/// as its invalid elements. One invalid element is enough for the field
/// to yield nothing.
pub proof fn lemma_each_invalid_element_is_reported<E>(
    items: Seq<RawValueView>,
    name: Seq<char>,
    table: Seq<(E, Seq<char>)>,
    upto: int,
)
    requires
        0 <= upto <= items.len(),
    ensures
        element_errors(items, name, table, upto).len() == invalid_elements(items, table, upto),
        upto == items.len() ==> (invalid_elements(items, table, upto) == 0 <==> all_elements_valid(
            items,
            table,
        )),
        invalid_elements(items, table, upto) > 0 ==> enum_array_field_value(
            RawValueView::Array(items),
            table,
            true,
        ) == TriState::<Seq<E>>::Absent,
    decreases upto,
{
    lemma_invalid_elements_bound(items, table, upto);
    if upto > 0 {
        lemma_each_invalid_element_is_reported(items, name, table, upto - 1);
    }
}

/// The invalid elements among the first `upto` are none exactly when each
/// of the first `upto` stands for a variant.
proof fn lemma_invalid_elements_bound<E>(
    items: Seq<RawValueView>,
    table: Seq<(E, Seq<char>)>,
    upto: int,
)
    requires
        0 <= upto <= items.len(),
    ensures
        invalid_elements(items, table, upto) == 0 <==> (forall|i: int|
            0 <= i < upto ==> (#[trigger] enum_field_value(items[i], table)) is Some),
    decreases upto,
{
    if upto > 0 {
        lemma_invalid_elements_bound(items, table, upto - 1);
    }
}

} // verus!
