//! The payload of a call as the handler reads it: a list of named fields
//! whose values are plain, or nothing at all.

use vstd::prelude::*;
use crate::number::Number;
use crate::text::str_eq;

verus! {

/// A value of a field.
#[derive(Clone, Debug, PartialEq, Eq)]
pub enum Value {
    /// The explicit absence of a value.
    Nil,
    Bool(bool),
    Number(Number),
    Text(String),
    /// Anything else: a list, a nested object, raw bytes.
    Other,
}

/// A value as contracts speak of it.
pub enum ValueView {
    Nil,
    Bool(bool),
    Number(Number),
    Text(Seq<char>),
    Other,
}

impl View for Value {
    type V = ValueView;

    open spec fn view(&self) -> ValueView {
        match self {
            Value::Nil => ValueView::Nil,
            Value::Bool(b) => ValueView::Bool(*b),
            Value::Number(n) => ValueView::Number(*n),
            Value::Text(t) => ValueView::Text(t@),
            Value::Other => ValueView::Other,
        }
    }
}

/// A named field of a payload.
#[derive(Clone, Debug, PartialEq, Eq)]
pub struct Field {
    pub name: String,
    pub value: Value,
}

/// A field as contracts speak of it.
pub struct FieldView {
    pub name: Seq<char>,
    pub value: ValueView,
}

impl View for Field {
    type V = FieldView;

    open spec fn view(&self) -> FieldView {
        FieldView { name: self.name@, value: self.value@ }
    }
}

/// The payload of a call. No payload at all is not the same as an object
/// without fields.
#[derive(Clone, Debug, PartialEq, Eq)]
pub enum Payload {
    /// The call came without payload.
    Absent,
    /// The payload is an object with these fields, in the order given.
    Fields(Vec<Field>),
    /// The payload is there but is no object of named fields.
    Malformed,
}

/// A payload as contracts speak of it.
pub enum PayloadView {
    Absent,
    Fields(Seq<FieldView>),
    Malformed,
}

/// The fields of a list as contracts speak of them.
pub open spec fn field_views(fields: Seq<Field>) -> Seq<FieldView> {
    fields.map_values(|f: Field| f@)
}

impl View for Payload {
    type V = PayloadView;

    open spec fn view(&self) -> PayloadView {
        match self {
            Payload::Absent => PayloadView::Absent,
            Payload::Fields(fields) => PayloadView::Fields(field_views(fields@)),
            Payload::Malformed => PayloadView::Malformed,
        }
    }
}

impl Payload {
    /// The payload of a call, from its raw bytes and from the fields that
    /// were read from them, if any could be: no bytes are no payload; bytes
    /// that gave no fields are malformed.
    pub fn framed(raw: &[u8], fields: Option<Vec<Field>>) -> (payload: Payload)
        ensures
            raw@.len() == 0 ==> payload == Payload::Absent,
            raw@.len() > 0 ==> payload == match fields {
                Some(f) => Payload::Fields(f),
                None => Payload::Malformed,
            },
    {
        if raw.len() == 0 {
            Payload::Absent
        } else {
            match fields {
                Some(f) => Payload::Fields(f),
                None => Payload::Malformed,
            }
        }
    }
}

/// The value of the first field with the given name.
pub open spec fn lookup(fields: Seq<FieldView>, name: Seq<char>) -> Option<ValueView>
    decreases fields.len(),
{
    if fields.len() == 0 {
        None
    } else if fields[0].name == name {
        Some(fields[0].value)
    } else {
        lookup(fields.drop_first(), name)
    }
}

/// The value of an optional field: none where the field is missing or holds
/// the explicit absence of a value.
pub open spec fn optional(fields: Seq<FieldView>, name: Seq<char>) -> Option<ValueView> {
    match lookup(fields, name) {
        Some(ValueView::Nil) => None,
        found => found,
    }
}

/// Whether no two fields have the same name.
pub open spec fn names_distinct(fields: Seq<FieldView>) -> bool {
    forall|i: int, j: int|
        0 <= i < j < fields.len() ==> (#[trigger] fields[i]).name != (#[trigger] fields[j]).name
}

/// Whether every field has one of the given names.
pub open spec fn names_within(fields: Seq<FieldView>, known: Seq<Seq<char>>) -> bool {
    forall|i: int| 0 <= i < fields.len() ==> known.contains((#[trigger] fields[i]).name)
}

/// Whether a list of fields fits a shape with the given field names: no
/// unknown field, no field twice.
pub open spec fn conforms(fields: Seq<FieldView>, known: Seq<Seq<char>>) -> bool {
    names_within(fields, known) && names_distinct(fields)
}

/// The characters of each name of a list.
pub open spec fn name_views(names: Seq<&'static str>) -> Seq<Seq<char>> {
    names.map_values(|n: &'static str| n@)
}

/// A field is found by `lookup` exactly where some field has its name.
pub proof fn lemma_lookup_finds(fields: Seq<FieldView>, name: Seq<char>)
    ensures
        lookup(fields, name) is Some <==> exists|i: int|
            0 <= i < fields.len() && (#[trigger] fields[i]).name == name,
    decreases fields.len(),
{
    if fields.len() > 0 {
        let rest = fields.drop_first();
        lemma_lookup_finds(rest, name);
        if fields[0].name != name {
            if exists|i: int| 0 <= i < fields.len() && (#[trigger] fields[i]).name == name {
                let i = choose|i: int|
                    0 <= i < fields.len() && (#[trigger] fields[i]).name == name;
                assert(rest[i - 1].name == name);
            }
        }
    }
}

/// The value of the first field with the given name.
pub fn find<'a>(fields: &'a Vec<Field>, name: &str) -> (found: Option<&'a Value>)
    ensures
        match found {
            Some(v) => lookup(field_views(fields@), name@) == Some(v@),
            None => lookup(field_views(fields@), name@) is None,
        },
{
    let ghost all = field_views(fields@);
    let mut i: usize = 0;
    assert(all.skip(0) =~= all);
    while i < fields.len()
        invariant
            i <= fields.len(),
            all == field_views(fields@),
            lookup(all, name@) == lookup(all.skip(i as int), name@),
        decreases fields.len() - i,
    {
        assert(all.skip(i as int).drop_first() =~= all.skip(i + 1));
        if str_eq(fields[i].name.as_str(), name) {
            return Some(&fields[i].value);
        }
        i = i + 1;
    }
    None
}

/// The value of an optional field: none where the field is missing or holds
/// the explicit absence of a value.
pub fn find_optional<'a>(fields: &'a Vec<Field>, name: &str) -> (found: Option<&'a Value>)
    ensures
        match found {
            Some(v) => optional(field_views(fields@), name@) == Some(v@),
            None => optional(field_views(fields@), name@) is None,
        },
{
    match find(fields, name) {
        Some(Value::Nil) => None,
        found => found,
    }
}

/// Whether a name is one of a list.
fn is_known(name: &str, known: &[&'static str]) -> (yes: bool)
    ensures
        yes == name_views(known@).contains(name@),
{
    let mut k: usize = 0;
    while k < known.len()
        invariant
            k <= known.len(),
            forall|j: int| 0 <= j < k ==> name_views(known@)[j] != name@,
        decreases known.len() - k,
    {
        if str_eq(name, known[k]) {
            assert(name_views(known@)[k as int] == name@);
            return true;
        }
        k = k + 1;
    }
    false
}

/// Whether a list of fields fits a shape with the given field names: no
/// unknown field, no field twice.
pub fn fields_conform(fields: &Vec<Field>, known: &[&'static str]) -> (fits: bool)
    ensures
        fits == conforms(field_views(fields@), name_views(known@)),
{
    let ghost all = field_views(fields@);
    let mut i: usize = 0;
    while i < fields.len()
        invariant
            i <= fields.len(),
            all == field_views(fields@),
            forall|a: int| 0 <= a < i ==> name_views(known@).contains((#[trigger] all[a]).name),
            forall|a: int, b: int|
                0 <= a < b < i ==> (#[trigger] all[a]).name != (#[trigger] all[b]).name,
        decreases fields.len() - i,
    {
        if !is_known(fields[i].name.as_str(), known) {
            return false;
        }
        let mut j: usize = 0;
        while j < i
            invariant
                j <= i < fields.len(),
                all == field_views(fields@),
                forall|a: int| 0 <= a < j ==> (#[trigger] all[a]).name != all[i as int].name,
            decreases i - j,
        {
            if str_eq(fields[j].name.as_str(), fields[i].name.as_str()) {
                assert(all[j as int].name == all[i as int].name);
                return false;
            }
            j = j + 1;
        }
        i = i + 1;
    }
    true
}

} // verus!
