//! Untyped request values, as they arrive in a request body.

use vstd::prelude::*;

verus! {

/// A JSON number: a non-negative integer, a negative integer, or any other
/// number, kept as its decimal text.
#[derive(Debug, Clone, PartialEq, Eq)]
pub enum RawNumber {
    Unsigned(u64),
    Negative(i64),
    Real(String),
}

/// The mathematical value of a [`RawNumber`].
pub enum RawNumberView {
    Unsigned(u64),
    Negative(i64),
    Real(Seq<char>),
}

impl DeepView for RawNumber {
    type V = RawNumberView;

    open spec fn deep_view(&self) -> RawNumberView {
        match self {
            RawNumber::Unsigned(n) => RawNumberView::Unsigned(*n),
            RawNumber::Negative(n) => RawNumberView::Negative(*n),
            RawNumber::Real(text) => RawNumberView::Real(text@),
        }
    }
}

/// One value of a request body: a JSON value, or `Missing` for a key that
/// the body does not hold.
#[derive(Debug, PartialEq, Eq)]
pub enum RawFieldValue {
    String(String),
    Bool(bool),
    Number(RawNumber),
    Array(Vec<RawFieldValue>),
    Object(Vec<(String, RawFieldValue)>),
    Null,
    Missing,
}

/// The mathematical value of a [`RawFieldValue`].
pub enum RawValueView {
    String(Seq<char>),
    Bool(bool),
    Number(RawNumberView),
    Array(Seq<RawValueView>),
    Object(Seq<(Seq<char>, RawValueView)>),
    Null,
    Missing,
}

/// The value of a raw field, element by element.
pub open spec fn raw_view(value: RawFieldValue) -> RawValueView
    decreases value,
{
    match value {
        RawFieldValue::String(s) => RawValueView::String(s@),
        RawFieldValue::Bool(b) => RawValueView::Bool(b),
        RawFieldValue::Number(n) => RawValueView::Number(n.deep_view()),
        RawFieldValue::Array(items) => RawValueView::Array(
            Seq::new(
                items.len() as nat,
                |i: int|
                    if 0 <= i < items.len() {
                        raw_view(items[i])
                    } else {
                        RawValueView::Missing
                    },
            ),
        ),
        RawFieldValue::Object(entries) => RawValueView::Object(
            Seq::new(
                entries.len() as nat,
                |i: int|
                    if 0 <= i < entries.len() {
                        (entries[i].0@, raw_view(entries[i].1))
                    } else {
                        (Seq::empty(), RawValueView::Missing)
                    },
            ),
        ),
        RawFieldValue::Null => RawValueView::Null,
        RawFieldValue::Missing => RawValueView::Missing,
    }
}

impl DeepView for RawFieldValue {
    type V = RawValueView;

    open spec fn deep_view(&self) -> RawValueView {
        raw_view(*self)
    }
}

impl Clone for RawFieldValue {
    /// A copy with the same value, element by element.
    fn clone(&self) -> (copy: RawFieldValue)
        ensures
            copy.deep_view() == self.deep_view(),
        decreases self,
    {
        match self {
            RawFieldValue::String(text) => RawFieldValue::String(text.clone()),
            RawFieldValue::Bool(flag) => RawFieldValue::Bool(*flag),
            RawFieldValue::Number(RawNumber::Unsigned(n)) => RawFieldValue::Number(
                RawNumber::Unsigned(*n),
            ),
            RawFieldValue::Number(RawNumber::Negative(n)) => RawFieldValue::Number(
                RawNumber::Negative(*n),
            ),
            RawFieldValue::Number(RawNumber::Real(text)) => RawFieldValue::Number(
                RawNumber::Real(text.clone()),
            ),
            RawFieldValue::Array(items) => {
                let mut copies: Vec<RawFieldValue> = Vec::new();
                let mut i: usize = 0;
                while i < items.len()
                    invariant
                        i <= items.len(),
                        *self == RawFieldValue::Array(*items),
                        copies.len() == i,
                        forall|k: int| 0 <= k < i ==> copies[k].deep_view() == items[k].deep_view(),
                    decreases items.len() - i,
                {
                    assert(self->Array_0 == *items);
                    assert(decreases_to!(*self => self->Array_0));
                    assert(decreases_to!(*items => items[i as int]));
                    copies.push(items[i].clone());
                    i += 1;
                }
                proof {
                    RawFieldValue::lemma_array_view(*items);
                    RawFieldValue::lemma_array_view(copies);
                    assert(copies.deep_view() =~= items.deep_view());
                }
                RawFieldValue::Array(copies)
            },
            RawFieldValue::Object(entries) => {
                let mut copies: Vec<(String, RawFieldValue)> = Vec::new();
                let mut i: usize = 0;
                while i < entries.len()
                    invariant
                        i <= entries.len(),
                        *self == RawFieldValue::Object(*entries),
                        copies.len() == i,
                        forall|k: int|
                            0 <= k < i ==> copies[k].deep_view() == entries[k].deep_view(),
                    decreases entries.len() - i,
                {
                    assert(self->Object_0 == *entries);
                    assert(decreases_to!(*self => self->Object_0));
                    assert(decreases_to!(*entries => entries[i as int]));
                    assert(decreases_to!(entries[i as int] => entries[i as int].1));
                    copies.push((entries[i].0.clone(), entries[i].1.clone()));
                    i += 1;
                }
                proof {
                    RawFieldValue::lemma_object_view(*entries);
                    RawFieldValue::lemma_object_view(copies);
                    assert(copies.deep_view() =~= entries.deep_view());
                }
                RawFieldValue::Object(copies)
            },
            RawFieldValue::Null => RawFieldValue::Null,
            RawFieldValue::Missing => RawFieldValue::Missing,
        }
    }
}

impl RawFieldValue {
    /// The value of an array is the sequence of its elements' values.
    pub proof fn lemma_array_view(items: Vec<RawFieldValue>)
        ensures
            RawFieldValue::Array(items).deep_view() == RawValueView::Array(items.deep_view()),
    {
        assert(RawFieldValue::Array(items).deep_view()->Array_0 =~= items.deep_view());
    }

    /// The value of an object is the sequence of its entries' keys and
    /// values.
    pub proof fn lemma_object_view(entries: Vec<(String, RawFieldValue)>)
        ensures
            RawFieldValue::Object(entries).deep_view() == RawValueView::Object(
                entries.deep_view(),
            ),
    {
        assert(RawFieldValue::Object(entries).deep_view()->Object_0 =~= entries.deep_view());
    }
}

/// The mapping that the entries of an object from `from` on stand for. Of
/// two entries with one key the earlier counts.
pub open spec fn entries_map(entries: Seq<(Seq<char>, RawValueView)>, from: int) -> Map<
    Seq<char>,
    RawValueView,
>
    decreases entries.len() - from,
{
    if from < 0 || from >= entries.len() {
        Map::empty()
    } else {
        entries_map(entries, from + 1).insert(entries[from].0, entries[from].1)
    }
}

/// The value that a body holds under `key`: `Missing` where it holds none.
pub open spec fn field_of(body: Map<Seq<char>, RawValueView>, key: Seq<char>) -> RawValueView {
    if body.dom().contains(key) {
        body[key]
    } else {
        RawValueView::Missing
    }
}

/// The body of a request: the entries of a JSON object.
#[derive(Debug, Clone, PartialEq, Eq)]
pub struct RawBody {
    pub entries: Vec<(String, RawFieldValue)>,
}

impl View for RawBody {
    type V = Map<Seq<char>, RawValueView>;

    /// A body is read as a mapping from keys to values.
    open spec fn view(&self) -> Map<Seq<char>, RawValueView> {
        entries_map(self.entries.deep_view(), 0)
    }
}

impl RawBody {
    /// The body with the given entries.
    pub fn new(entries: Vec<(String, RawFieldValue)>) -> (body: RawBody)
        ensures
            body.entries == entries,
    {
        RawBody { entries }
    }

    /// The value under `key`, if the body holds one.
    pub fn get(&self, key: &str) -> (r: Option<&RawFieldValue>)
        ensures
            r is Some == self@.dom().contains(key@),
            r matches Some(value) ==> value.deep_view() == self@[key@],
    {
        let wanted = key.to_owned();
        let ghost entries = self.entries.deep_view();
        let mut i: usize = 0;
        while i < self.entries.len()
            invariant
                i <= self.entries.len(),
                wanted@ == key@,
                entries == self.entries.deep_view(),
                entries_map(entries, 0).dom().contains(key@) == entries_map(
                    entries,
                    i as int,
                ).dom().contains(key@),
                entries_map(entries, 0).dom().contains(key@) ==> entries_map(entries, 0)[key@]
                    == entries_map(entries, i as int)[key@],
            decreases self.entries.len() - i,
        {
            assert(entries[i as int] == (
                self.entries[i as int].0@,
                self.entries[i as int].1.deep_view(),
            ));
            if self.entries[i].0 == wanted {
                return Some(&self.entries[i].1);
            }
            i += 1;
        }
        None
    }

    /// The value under `key`, or `missing` where the body holds none.
    pub fn field<'a>(&'a self, key: &str, missing: &'a RawFieldValue) -> (r: &'a RawFieldValue)
        ensures
            r.deep_view() == (if self@.dom().contains(key@) {
                self@[key@]
            } else {
                missing.deep_view()
            }),
    {
        match self.get(key) {
            Some(value) => value,
            None => missing,
        }
    }
}

} // verus!
