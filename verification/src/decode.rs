//! Decoding a JSON document into certificate records.
//!
//! A document decodes when it is an array of objects, each with the members
//! of a record. Two things are tolerated: `entry_timestamp` may be missing or
//! `null`, and `issuer_ca_id` may be negative. Members that a record does not
//! have are ignored.

use vstd::prelude::*;
use vstd::string::StringExecFns;
use crate::crt::{Crt, CrtField, CrtView};
use crate::json::{JsonField, JsonValue};
use crate::text::{decimal_string, decimal_text};

verus! {

/// Why a document is not a list of records.
#[derive(Debug, Clone, Copy, PartialEq, Eq, Structural)]
pub enum DecodeError {
    /// The text is not JSON.
    NotJson,
    /// The document is not an array.
    NotAnArray,
    /// The element at `index` is not an object.
    NotAnObject { index: usize },
    /// The object at `index` lacks a member that a record must have.
    MissingField { index: usize, field: CrtField },
    /// The object at `index` holds a member of the wrong kind, or a number
    /// that does not fit.
    InvalidField { index: usize, field: CrtField },
}

impl DecodeError {
    /// The error in words.
    pub open spec fn message_text(self) -> Seq<char> {
        match self {
            DecodeError::NotJson => "response is not JSON"@,
            DecodeError::NotAnArray => "expected a list of records"@,
            DecodeError::NotAnObject { index } => "record "@ + decimal_text(index as nat)
                + ": expected an object"@,
            DecodeError::MissingField { index, field } => "record "@ + decimal_text(index as nat)
                + ": missing field `"@ + field.key() + "`"@,
            DecodeError::InvalidField { index, field } => "record "@ + decimal_text(index as nat)
                + ": invalid value for field `"@ + field.key() + "`"@,
        }
    }

    /// The error in words.
    pub fn message(&self) -> (text: String)
        ensures
            text@ == self.message_text(),
    {
        match self {
            DecodeError::NotJson => String::from_str("response is not JSON"),
            DecodeError::NotAnArray => String::from_str("expected a list of records"),
            DecodeError::NotAnObject { index } => {
                let mut text = String::from_str("record ");
                text.append(decimal_string(*index as u64).as_str());
                text.append(": expected an object");
                text
            },
            DecodeError::MissingField { index, field } => {
                let mut text = String::from_str("record ");
                text.append(decimal_string(*index as u64).as_str());
                text.append(": missing field `");
                text.append(field.name());
                text.append("`");
                text
            },
            DecodeError::InvalidField { index, field } => {
                let mut text = String::from_str("record ");
                text.append(decimal_string(*index as u64).as_str());
                text.append(": invalid value for field `");
                text.append(field.name());
                text.append("`");
                text
            },
        }
    }
}

/// The value of the first member called `key` at or after `start`.
pub open spec fn member_from(fields: Seq<JsonField>, key: Seq<char>, start: int) -> Option<JsonValue>
    decreases fields.len() - start,
{
    if start < 0 || start >= fields.len() {
        None
    } else if fields[start].name@ == key {
        Some(fields[start].value)
    } else {
        member_from(fields, key, start + 1)
    }
}

/// The value of the first member called `key`.
pub open spec fn member(fields: Seq<JsonField>, key: Seq<char>) -> Option<JsonValue> {
    member_from(fields, key, 0)
}

/// The integer that a JSON number stands for, where it is one.
pub open spec fn integer_of(value: JsonValue) -> Option<int> {
    match value {
        JsonValue::PosInt(n) => Some(n as int),
        JsonValue::NegInt(n) => Some(n as int),
        _ => None,
    }
}

/// A member that must be a string.
pub open spec fn text_member(fields: Seq<JsonField>, index: usize, field: CrtField) -> Result<
    Seq<char>,
    DecodeError,
> {
    match member(fields, field.key()) {
        None => Err(DecodeError::MissingField { index, field }),
        Some(JsonValue::String(text)) => Ok(text@),
        Some(_) => Err(DecodeError::InvalidField { index, field }),
    }
}

/// A member that is a string, or is `null`, or is not there.
pub open spec fn optional_text_member(
    fields: Seq<JsonField>,
    index: usize,
    field: CrtField,
) -> Result<Option<Seq<char>>, DecodeError> {
    match member(fields, field.key()) {
        None => Ok(None),
        Some(JsonValue::Null) => Ok(None),
        Some(JsonValue::String(text)) => Ok(Some(text@)),
        Some(_) => Err(DecodeError::InvalidField { index, field }),
    }
}

/// A member that must be an integer from `low` to `high`.
pub open spec fn integer_member(
    fields: Seq<JsonField>,
    index: usize,
    field: CrtField,
    low: int,
    high: int,
) -> Result<int, DecodeError> {
    match member(fields, field.key()) {
        None => Err(DecodeError::MissingField { index, field }),
        Some(value) => match integer_of(value) {
            Some(n) if low <= n <= high => Ok(n),
            _ => Err(DecodeError::InvalidField { index, field }),
        },
    }
}

/// The record that the members of an object make, or the error of the first
/// member, in the order of `CrtField`, that does not fit.
pub open spec fn record_of_members(fields: Seq<JsonField>, index: usize) -> Result<CrtView, DecodeError> {
    let id = integer_member(fields, index, CrtField::Id, 0, u64::MAX as int);
    let common_name = text_member(fields, index, CrtField::CommonName);
    let entry_timestamp = optional_text_member(fields, index, CrtField::EntryTimestamp);
    let issuer_ca_id = integer_member(fields, index, CrtField::IssuerCaId, i64::MIN as int, i64::MAX as int);
    let issuer_name = text_member(fields, index, CrtField::IssuerName);
    let name_value = text_member(fields, index, CrtField::NameValue);
    let not_after = text_member(fields, index, CrtField::NotAfter);
    let not_before = text_member(fields, index, CrtField::NotBefore);
    let result_count = integer_member(fields, index, CrtField::ResultCount, 0, u32::MAX as int);
    let serial_number = text_member(fields, index, CrtField::SerialNumber);
    if id is Err {
        Err(id->Err_0)
    } else if common_name is Err {
        Err(common_name->Err_0)
    } else if entry_timestamp is Err {
        Err(entry_timestamp->Err_0)
    } else if issuer_ca_id is Err {
        Err(issuer_ca_id->Err_0)
    } else if issuer_name is Err {
        Err(issuer_name->Err_0)
    } else if name_value is Err {
        Err(name_value->Err_0)
    } else if not_after is Err {
        Err(not_after->Err_0)
    } else if not_before is Err {
        Err(not_before->Err_0)
    } else if result_count is Err {
        Err(result_count->Err_0)
    } else if serial_number is Err {
        Err(serial_number->Err_0)
    } else {
        Ok(
            CrtView {
                id: id->Ok_0 as u64,
                common_name: common_name->Ok_0,
                entry_timestamp: entry_timestamp->Ok_0,
                issuer_ca_id: issuer_ca_id->Ok_0 as i64,
                issuer_name: issuer_name->Ok_0,
                name_value: name_value->Ok_0,
                not_after: not_after->Ok_0,
                not_before: not_before->Ok_0,
                result_count: result_count->Ok_0 as u32,
                serial_number: serial_number->Ok_0,
            },
        )
    }
}

/// The record that the element at `index` of a document decodes to.
pub open spec fn decode_record_spec(element: JsonValue, index: usize) -> Result<CrtView, DecodeError> {
    match element {
        JsonValue::Object(fields) => record_of_members(fields@, index),
        _ => Err(DecodeError::NotAnObject { index }),
    }
}

/// Whether every element before `end` decodes.
pub open spec fn records_decode(items: Seq<JsonValue>, end: int) -> bool {
    forall|i: int| 0 <= i < end ==> (#[trigger] decode_record_spec(items[i], i as usize)) is Ok
}

/// Whether `index` is the first element that does not decode.
pub open spec fn is_first_failure(items: Seq<JsonValue>, index: int) -> bool {
    &&& 0 <= index < items.len()
    &&& decode_record_spec(items[index], index as usize) is Err
    &&& records_decode(items, index)
}

/// The first element that does not decode, where there is one.
pub open spec fn first_failure(items: Seq<JsonValue>) -> int {
    choose|k: int| is_first_failure(items, k)
}

/// The records of a document: every element decoded, in order, where the
/// document is an array and all of its elements decode; else the error of
/// the first element that does not.
pub open spec fn decode_records_spec(tree: JsonValue) -> Result<Seq<CrtView>, DecodeError> {
    match tree {
        JsonValue::Array(items) => {
            if records_decode(items@, items@.len() as int) {
                Ok(Seq::new(items@.len(), |i: int| decode_record_spec(items@[i], i as usize)->Ok_0))
            } else {
                let first = first_failure(items@);
                Err(decode_record_spec(items@[first], first as usize)->Err_0)
            }
        },
        _ => Err(DecodeError::NotAnArray),
    }
}

/// Where the elements before `index` decode and the one at `index` does
/// not, the document does not decode, and the error is that of the element
/// at `index`.
pub proof fn lemma_first_failure_decides(items: Vec<JsonValue>, index: int)
    requires
        is_first_failure(items@, index),
    ensures
        first_failure(items@) == index,
        decode_records_spec(JsonValue::Array(items)) == Err::<Seq<CrtView>, DecodeError>(
            decode_record_spec(items@[index], index as usize)->Err_0,
        ),
{
    let first = first_failure(items@);
    if first < index {
    } else if first > index {
    }
}

/// The records of a list, each as its view.
pub open spec fn views_of(records: Seq<Crt>) -> Seq<CrtView> {
    Seq::new(records.len(), |i: int| records[i]@)
}

fn same_text(text: &String, other: &str) -> (same: bool)
    ensures
        same == (text@ == other@),
{
    let owned = other.to_owned();
    *text == owned
}

/// Finds the first member called `key`.
pub fn find_member<'a>(fields: &'a Vec<JsonField>, key: &str) -> (found: Option<&'a JsonValue>)
    ensures
        match found {
            Some(value) => member(fields@, key@) == Some(*value),
            None => member(fields@, key@) is None,
        },
{
    let mut i: usize = 0;
    while i < fields.len()
        invariant
            i <= fields.len(),
            member(fields@, key@) == member_from(fields@, key@, i as int),
        decreases fields.len() - i,
    {
        if same_text(&fields[i].name, key) {
            return Some(&fields[i].value);
        }
        i += 1;
    }
    None
}

fn read_text(fields: &Vec<JsonField>, index: usize, field: CrtField) -> (read: Result<String, DecodeError>)
    ensures
        match read {
            Ok(text) => text_member(fields@, index, field) == Ok::<Seq<char>, DecodeError>(text@),
            Err(e) => text_member(fields@, index, field) == Err::<Seq<char>, DecodeError>(e),
        },
{
    match find_member(fields, field.name()) {
        None => Err(DecodeError::MissingField { index, field }),
        Some(JsonValue::String(text)) => Ok(text.clone()),
        Some(_) => Err(DecodeError::InvalidField { index, field }),
    }
}

fn read_optional_text(fields: &Vec<JsonField>, index: usize, field: CrtField) -> (read: Result<
    Option<String>,
    DecodeError,
>)
    ensures
        match read {
            Ok(Some(text)) => optional_text_member(fields@, index, field) == Ok::<
                Option<Seq<char>>,
                DecodeError,
            >(Some(text@)),
            Ok(None) => optional_text_member(fields@, index, field) == Ok::<Option<Seq<char>>, DecodeError>(
                None,
            ),
            Err(e) => optional_text_member(fields@, index, field) == Err::<Option<Seq<char>>, DecodeError>(
                e,
            ),
        },
{
    match find_member(fields, field.name()) {
        None => Ok(None),
        Some(JsonValue::Null) => Ok(None),
        Some(JsonValue::String(text)) => Ok(Some(text.clone())),
        Some(_) => Err(DecodeError::InvalidField { index, field }),
    }
}

fn read_u64(fields: &Vec<JsonField>, index: usize, field: CrtField) -> (read: Result<u64, DecodeError>)
    ensures
        match read {
            Ok(n) => integer_member(fields@, index, field, 0, u64::MAX as int) == Ok::<int, DecodeError>(
                n as int,
            ),
            Err(e) => integer_member(fields@, index, field, 0, u64::MAX as int) == Err::<int, DecodeError>(e),
        },
{
    match find_member(fields, field.name()) {
        None => Err(DecodeError::MissingField { index, field }),
        Some(JsonValue::PosInt(n)) => Ok(*n),
        Some(JsonValue::NegInt(n)) => {
            if *n >= 0 {
                Ok(*n as u64)
            } else {
                Err(DecodeError::InvalidField { index, field })
            }
        },
        Some(_) => Err(DecodeError::InvalidField { index, field }),
    }
}

fn read_u32(fields: &Vec<JsonField>, index: usize, field: CrtField) -> (read: Result<u32, DecodeError>)
    ensures
        match read {
            Ok(n) => integer_member(fields@, index, field, 0, u32::MAX as int) == Ok::<int, DecodeError>(
                n as int,
            ),
            Err(e) => integer_member(fields@, index, field, 0, u32::MAX as int) == Err::<int, DecodeError>(e),
        },
{
    match find_member(fields, field.name()) {
        None => Err(DecodeError::MissingField { index, field }),
        Some(JsonValue::PosInt(n)) => {
            if *n <= 0xffff_ffff {
                Ok(*n as u32)
            } else {
                Err(DecodeError::InvalidField { index, field })
            }
        },
        Some(JsonValue::NegInt(n)) => {
            if 0 <= *n && *n <= 0xffff_ffff {
                Ok(*n as u32)
            } else {
                Err(DecodeError::InvalidField { index, field })
            }
        },
        Some(_) => Err(DecodeError::InvalidField { index, field }),
    }
}

fn read_i64(fields: &Vec<JsonField>, index: usize, field: CrtField) -> (read: Result<i64, DecodeError>)
    ensures
        match read {
            Ok(n) => integer_member(fields@, index, field, i64::MIN as int, i64::MAX as int) == Ok::<
                int,
                DecodeError,
            >(n as int),
            Err(e) => integer_member(fields@, index, field, i64::MIN as int, i64::MAX as int) == Err::<
                int,
                DecodeError,
            >(e),
        },
{
    match find_member(fields, field.name()) {
        None => Err(DecodeError::MissingField { index, field }),
        Some(JsonValue::PosInt(n)) => {
            if *n <= 0x7fff_ffff_ffff_ffff {
                Ok(*n as i64)
            } else {
                Err(DecodeError::InvalidField { index, field })
            }
        },
        Some(JsonValue::NegInt(n)) => Ok(*n),
        Some(_) => Err(DecodeError::InvalidField { index, field }),
    }
}

/// Decodes the element at `index` of a document into a record.
pub fn decode_record(element: &JsonValue, index: usize) -> (decoded: Result<Crt, DecodeError>)
    ensures
        match decoded {
            Ok(record) => decode_record_spec(*element, index) == Ok::<CrtView, DecodeError>(record@),
            Err(e) => decode_record_spec(*element, index) == Err::<CrtView, DecodeError>(e),
        },
{
    match element {
        JsonValue::Object(fields) => {
            let id = read_u64(fields, index, CrtField::Id)?;
            let common_name = read_text(fields, index, CrtField::CommonName)?;
            let entry_timestamp = read_optional_text(fields, index, CrtField::EntryTimestamp)?;
            let issuer_ca_id = read_i64(fields, index, CrtField::IssuerCaId)?;
            let issuer_name = read_text(fields, index, CrtField::IssuerName)?;
            let name_value = read_text(fields, index, CrtField::NameValue)?;
            let not_after = read_text(fields, index, CrtField::NotAfter)?;
            let not_before = read_text(fields, index, CrtField::NotBefore)?;
            let result_count = read_u32(fields, index, CrtField::ResultCount)?;
            let serial_number = read_text(fields, index, CrtField::SerialNumber)?;
            Ok(
                Crt {
                    id,
                    common_name,
                    entry_timestamp,
                    issuer_ca_id,
                    issuer_name,
                    name_value,
                    not_after,
                    not_before,
                    result_count,
                    serial_number,
                },
            )
        },
        _ => Err(DecodeError::NotAnObject { index }),
    }
}

/// Decodes a document into the records it lists.
pub fn decode_records(tree: &JsonValue) -> (decoded: Result<Vec<Crt>, DecodeError>)
    ensures
        match decoded {
            Ok(records) => decode_records_spec(*tree) == Ok::<Seq<CrtView>, DecodeError>(views_of(records@)),
            Err(e) => decode_records_spec(*tree) == Err::<Seq<CrtView>, DecodeError>(e),
        },
        decoded matches Ok(records) ==> tree matches JsonValue::Array(items) && records@.len() == items@.len(),
{
    match tree {
        JsonValue::Array(items) => {
            let mut records: Vec<Crt> = Vec::new();
            let mut i: usize = 0;
            while i < items.len()
                invariant
                    *tree == JsonValue::Array(*items),
                    i <= items.len(),
                    records.len() == i,
                    records_decode(items@, i as int),
                    forall|j: int|
                        0 <= j < i ==> decode_record_spec(items@[j], j as usize) == Ok::<CrtView, DecodeError>(
                            (#[trigger] records@[j])@,
                        ),
                decreases items.len() - i,
            {
                match decode_record(&items[i], i) {
                    Ok(record) => {
                        records.push(record);
                    },
                    Err(e) => {
                        proof {
                            lemma_first_failure_decides(*items, i as int);
                        }
                        return Err(e);
                    },
                }
                i += 1;
            }
            proof {
                assert(views_of(records@) =~= Seq::new(
                    items@.len(),
                    |i: int| decode_record_spec(items@[i], i as usize)->Ok_0,
                ));
            }
            Ok(records)
        },
        _ => Err(DecodeError::NotAnArray),
    }
}

/// Whether the member of an object that a field of a record is read from fits
/// that field.
pub open spec fn member_fits(fields: Seq<JsonField>, index: usize, field: CrtField) -> bool {
    match field {
        CrtField::Id => integer_member(fields, index, field, 0, u64::MAX as int) is Ok,
        CrtField::IssuerCaId => integer_member(fields, index, field, i64::MIN as int, i64::MAX as int) is Ok,
        CrtField::ResultCount => integer_member(fields, index, field, 0, u32::MAX as int) is Ok,
        CrtField::EntryTimestamp => optional_text_member(fields, index, field) is Ok,
        _ => text_member(fields, index, field) is Ok,
    }
}

/// A document that is not an array, such as an object, is no list of
/// records.
pub proof fn law_only_arrays_decode(tree: JsonValue)
    requires
        !(tree is Array),
    ensures
        decode_records_spec(tree) == Err::<Seq<CrtView>, DecodeError>(DecodeError::NotAnArray),
{
}

/// An object decodes into a record exactly where each member fits its
/// field.
pub proof fn law_record_decodes_where_members_fit(fields: Seq<JsonField>, index: usize)
    ensures
        record_of_members(fields, index) is Ok <==> forall|field: CrtField| #[trigger]
            member_fits(fields, index, field),
{
    if record_of_members(fields, index) is Ok {
        assert forall|field: CrtField| #[trigger] member_fits(fields, index, field) by {}
    }
    if forall|field: CrtField| #[trigger] member_fits(fields, index, field) {
        assert(member_fits(fields, index, CrtField::Id));
        assert(member_fits(fields, index, CrtField::CommonName));
        assert(member_fits(fields, index, CrtField::EntryTimestamp));
        assert(member_fits(fields, index, CrtField::IssuerCaId));
        assert(member_fits(fields, index, CrtField::IssuerName));
        assert(member_fits(fields, index, CrtField::NameValue));
        assert(member_fits(fields, index, CrtField::NotAfter));
        assert(member_fits(fields, index, CrtField::NotBefore));
        assert(member_fits(fields, index, CrtField::ResultCount));
        assert(member_fits(fields, index, CrtField::SerialNumber));
    }
}

/// An object whose `entry_timestamp` is missing or `null` decodes, where
/// its other members fit, into a record without a time stamp.
pub proof fn law_timestamp_may_be_missing(fields: Seq<JsonField>, index: usize)
    requires
        forall|field: CrtField| field != CrtField::EntryTimestamp ==> #[trigger] member_fits(fields, index, field),
        member(fields, CrtField::EntryTimestamp.key()) is None || member(fields, CrtField::EntryTimestamp.key())
            == Some(JsonValue::Null),
    ensures
        record_of_members(fields, index) is Ok,
        record_of_members(fields, index)->Ok_0.entry_timestamp is None,
{
    law_record_decodes_where_members_fit(fields, index);
}

/// An object whose `issuer_ca_id` is below zero, such as the `-1` that
/// stands for an unknown issuer, decodes, where its other members fit, into
/// a record with that very number.
pub proof fn law_negative_issuer_is_kept(fields: Seq<JsonField>, index: usize, issuer: i64)
    requires
        forall|field: CrtField| field != CrtField::IssuerCaId ==> #[trigger] member_fits(fields, index, field),
        member(fields, CrtField::IssuerCaId.key()) == Some(JsonValue::NegInt(issuer)),
    ensures
        record_of_members(fields, index) is Ok,
        record_of_members(fields, index)->Ok_0.issuer_ca_id == issuer,
{
    law_record_decodes_where_members_fit(fields, index);
}

} // verus!
