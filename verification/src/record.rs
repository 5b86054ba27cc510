//! Reading the fields of one record out of the members of a JSON object.

use vstd::prelude::*;
use crate::json::{find_member, member, members_view, Json, JsonValue, Member};

verus! {

/// A key under which the API writes a field of a record.
#[derive(Debug, Clone, Copy, PartialEq, Eq)]
pub enum Field {
    Name,
    Code,
    Currency,
    Country,
    CountryIso2,
    CountryIso3,
    Exchange,
    Type,
    Isin,
}

impl Field {
    /// The key as it stands in the JSON text.
    pub open spec fn key(self) -> Seq<char> {
        match self {
            Field::Name => "Name"@,
            Field::Code => "Code"@,
            Field::Currency => "Currency"@,
            Field::Country => "Country"@,
            Field::CountryIso2 => "CountryISO2"@,
            Field::CountryIso3 => "CountryISO3"@,
            Field::Exchange => "Exchange"@,
            Field::Type => "Type"@,
            Field::Isin => "Isin"@,
        }
    }

    /// The key as it stands in the JSON text.
    pub fn as_str(self) -> (key: &'static str)
        ensures
            key@ == self.key(),
    {
        match self {
            Field::Name => "Name",
            Field::Code => "Code",
            Field::Currency => "Currency",
            Field::Country => "Country",
            Field::CountryIso2 => "CountryISO2",
            Field::CountryIso3 => "CountryISO3",
            Field::Exchange => "Exchange",
            Field::Type => "Type",
            Field::Isin => "Isin",
        }
    }
}

/// Why a field could not be read.
#[derive(Debug, Clone, Copy, PartialEq, Eq)]
pub enum FieldFault {
    /// No member of the object has the key.
    Missing,
    /// Two or more members of the object have the key.
    Repeated,
    /// The value under the key is not of the JSON kind that the field takes.
    WrongKind,
}

/// Why an item of the response could not be read as a record.
#[derive(Debug, Clone, Copy, PartialEq, Eq)]
pub enum RecordFault {
    /// The item is not a JSON object.
    NotAnObject,
    /// The item is an object, and `field` is the first of the record's fields,
    /// in the order of their declaration, that could not be read.
    Field { field: Field, fault: FieldFault },
}

/// The text of a required field: its key occurs once, and its value is a string.
pub open spec fn text_member(members: Seq<(Seq<char>, Json)>, field: Field) -> Result<
    Seq<char>,
    FieldFault,
> {
    match member(members, field.key()) {
        Member::Missing => Err(FieldFault::Missing),
        Member::Repeated => Err(FieldFault::Repeated),
        Member::Unique(Json::Text(text)) => Ok(text),
        Member::Unique(_) => Err(FieldFault::WrongKind),
    }
}

/// The text of a field that may be left out: absent where no member has the
/// key or its value is `null`, present where its value is a string.
pub open spec fn optional_text_member(members: Seq<(Seq<char>, Json)>, field: Field) -> Result<
    Option<Seq<char>>,
    FieldFault,
> {
    match member(members, field.key()) {
        Member::Missing => Ok(None),
        Member::Repeated => Err(FieldFault::Repeated),
        Member::Unique(Json::Null) => Ok(None),
        Member::Unique(Json::Text(text)) => Ok(Some(text)),
        Member::Unique(_) => Err(FieldFault::WrongKind),
    }
}

/// Reads a required text field.
pub fn read_text(members: &Vec<(String, JsonValue)>, field: Field) -> (read: Result<
    String,
    FieldFault,
>)
    ensures
        (match text_member(members_view(members@), field) {
            Ok(text) => read matches Ok(s) && s@ == text,
            Err(fault) => read == Err::<String, FieldFault>(fault),
        }),
{
    match find_member(members, field.as_str()) {
        Member::Missing => Err(FieldFault::Missing),
        Member::Repeated => Err(FieldFault::Repeated),
        Member::Unique(value) => match value {
            JsonValue::Text(text) => Ok(text.clone()),
            _ => Err(FieldFault::WrongKind),
        },
    }
}

/// Reads a text field that may be left out or be `null`.
pub fn read_optional_text(members: &Vec<(String, JsonValue)>, field: Field) -> (read: Result<
    Option<String>,
    FieldFault,
>)
    ensures
        (match optional_text_member(members_view(members@), field) {
            Ok(Some(text)) => read matches Ok(Some(s)) && s@ == text,
            Ok(None) => read == Ok::<Option<String>, FieldFault>(None),
            Err(fault) => read == Err::<Option<String>, FieldFault>(fault),
        }),
{
    match find_member(members, field.as_str()) {
        Member::Missing => Ok(None),
        Member::Repeated => Err(FieldFault::Repeated),
        Member::Unique(value) => match value {
            JsonValue::Null => Ok(None),
            JsonValue::Text(text) => Ok(Some(text.clone())),
            _ => Err(FieldFault::WrongKind),
        },
    }
}

} // verus!
