//! From the objects of a document to records.
//!
//! An object is a record where, for each of the six fields, it holds under
//! the field's key a value of the field's kind: an integer that fits `i32`
//! for the identifier, a string for every other field. Entries under other
//! keys are not read; of several entries under one key the last one counts.

use crate::decimal::{decimal, push_decimal};
use crate::document::{FieldModel, FieldValue, Row, RowModel};
use crate::error::{ImportError, ImportErrorModel};
use crate::record::{Field, Record, RecordModel};
use vstd::prelude::*;

verus! {

/// What is wrong with a field of an object.
#[derive(Debug, Clone, Copy, PartialEq, Eq)]
pub enum Fault {
    /// No entry has the field's key.
    Missing,
    /// The entry's value is not of the field's kind.
    Invalid,
}

/// The value that `row` holds under `key`: that of its last entry with
/// that key, if there is one.
pub open spec fn lookup(row: RowModel, key: Seq<char>) -> Option<FieldModel>
    decreases row.len(),
{
    if row.len() == 0 {
        None
    } else if row.last().0 == key {
        Some(row.last().1)
    } else {
        lookup(row.drop_last(), key)
    }
}

/// Whether `value` is of the kind of `field`.
pub open spec fn admits(field: Field, value: FieldModel) -> bool {
    match field {
        Field::Id => value matches FieldModel::Number(Some(n)) && i32::MIN <= n <= i32::MAX,
        _ => value is Text,
    }
}

/// What is wrong with `field` in `row`, if anything.
pub open spec fn fault_of(row: RowModel, field: Field) -> Option<Fault> {
    match lookup(row, field.key()) {
        None => Some(Fault::Missing),
        Some(value) => if admits(field, value) {
            None
        } else {
            Some(Fault::Invalid)
        },
    }
}

/// The first field, in the record's order, with which something is wrong
/// in `row`, and what.
pub open spec fn first_fault(row: RowModel) -> Option<(Field, Fault)> {
    if fault_of(row, Field::Id) is Some {
        Some((Field::Id, fault_of(row, Field::Id)->0))
    } else if fault_of(row, Field::FirstName) is Some {
        Some((Field::FirstName, fault_of(row, Field::FirstName)->0))
    } else if fault_of(row, Field::LastName) is Some {
        Some((Field::LastName, fault_of(row, Field::LastName)->0))
    } else if fault_of(row, Field::Email) is Some {
        Some((Field::Email, fault_of(row, Field::Email)->0))
    } else if fault_of(row, Field::Gender) is Some {
        Some((Field::Gender, fault_of(row, Field::Gender)->0))
    } else if fault_of(row, Field::IpAddress) is Some {
        Some((Field::IpAddress, fault_of(row, Field::IpAddress)->0))
    } else {
        None
    }
}

/// The identifier that `row` holds, where nothing is wrong with it.
pub open spec fn id_at(row: RowModel) -> int {
    lookup(row, Field::Id.key())->0->Number_0->0
}

/// The string that `row` holds for `field`, where nothing is wrong with it.
pub open spec fn text_at(row: RowModel, field: Field) -> Seq<char> {
    lookup(row, field.key())->0->Text_0
}

/// The record that `row` holds, or the first thing wrong with it.
pub open spec fn decode_row(row: RowModel) -> Result<RecordModel, (Field, Fault)> {
    match first_fault(row) {
        Some(fault) => Err(fault),
        None => Ok(
            RecordModel {
                id: id_at(row),
                first_name: text_at(row, Field::FirstName),
                last_name: text_at(row, Field::LastName),
                email: text_at(row, Field::Email),
                gender: text_at(row, Field::Gender),
                ip_address: text_at(row, Field::IpAddress),
            },
        ),
    }
}

/// The diagnostic for a fault in the element at `index` of the array.
pub open spec fn fault_text(index: nat, field: Field, fault: Fault) -> Seq<char> {
    "element "@ + decimal(index) + ": "@ + match fault {
        Fault::Missing => "missing field `"@,
        Fault::Invalid => "invalid value for field `"@,
    } + field.key() + "`"@
}

/// Whether `index` is the first place of `rows` whose object is no record.
pub open spec fn first_faulty(rows: Seq<RowModel>, index: int) -> bool {
    &&& 0 <= index < rows.len()
    &&& decode_row(rows[index]) is Err
    &&& forall|j: int| 0 <= j < index ==> (#[trigger] decode_row(rows[j])) is Ok
}

/// The records that `rows` hold, in their order, or the failure for the
/// first object that is no record.
pub open spec fn decode_rows(rows: Seq<RowModel>) -> Result<Seq<RecordModel>, ImportErrorModel> {
    if exists|index: int| first_faulty(rows, index) {
        let index = choose|index: int| first_faulty(rows, index);
        let (field, fault) = decode_row(rows[index])->Err_0;
        Err(ImportErrorModel::Parse { diagnostic: fault_text(index as nat, field, fault) })
    } else {
        Ok(rows.map_values(|row: RowModel| decode_row(row)->Ok_0))
    }
}

/// The mathematical value of the outcome of decoding one object.
pub open spec fn row_outcome(outcome: Result<Record, (Field, Fault)>) -> Result<
    RecordModel,
    (Field, Fault),
> {
    match outcome {
        Ok(record) => Ok(record@),
        Err(fault) => Err(fault),
    }
}

/// The mathematical value of the outcome of an import.
pub open spec fn outcome_model(outcome: Result<Vec<Record>, ImportError>) -> Result<
    Seq<RecordModel>,
    ImportErrorModel,
> {
    match outcome {
        Ok(records) => Ok(records.deep_view()),
        Err(error) => Err(error@),
    }
}

/// The value that `row` holds under `key`: that of its last entry with
/// that key, if there is one.
pub fn find<'a>(row: &'a Row, key: &str) -> (found: Option<&'a FieldValue>)
    ensures
        found.deep_view() == lookup(row.deep_view(), key@),
{
    let wanted = String::from_str(key);
    let mut i: usize = row.len();
    assert(row.deep_view().take(i as int) =~= row.deep_view());
    while i > 0
        invariant
            i <= row.len(),
            wanted@ == key@,
            lookup(row.deep_view(), key@) == lookup(row.deep_view().take(i as int), key@),
        decreases i,
    {
        assert(row.deep_view().take(i as int).drop_last() =~= row.deep_view().take(i - 1));
        i -= 1;
        if row[i].0 == wanted {
            return Some(&row[i].1);
        }
    }
    None
}

fn read_id(row: &Row) -> (outcome: Result<i32, Fault>)
    ensures
        outcome matches Ok(id) ==> fault_of(row.deep_view(), Field::Id) is None && id == id_at(
            row.deep_view(),
        ),
        outcome matches Err(fault) ==> fault_of(row.deep_view(), Field::Id) == Some(fault),
{
    match find(row, Field::Id.name()) {
        None => Err(Fault::Missing),
        Some(FieldValue::Number(Some(n))) => {
            if -2147483648 <= *n && *n <= 2147483647 {
                Ok(*n as i32)
            } else {
                Err(Fault::Invalid)
            }
        },
        Some(_) => Err(Fault::Invalid),
    }
}

fn read_text(row: &Row, field: Field) -> (outcome: Result<String, Fault>)
    requires
        field != Field::Id,
    ensures
        outcome matches Ok(text) ==> fault_of(row.deep_view(), field) is None && text@ == text_at(
            row.deep_view(),
            field,
        ),
        outcome matches Err(fault) ==> fault_of(row.deep_view(), field) == Some(fault),
{
    match find(row, field.name()) {
        None => Err(Fault::Missing),
        Some(FieldValue::Text(text)) => Ok(text.clone()),
        Some(_) => Err(Fault::Invalid),
    }
}

/// Decodes one object: the record that it holds, or the first field, in
/// the record's order, with which something is wrong, and what.
pub fn record_from_row(row: &Row) -> (outcome: Result<Record, (Field, Fault)>)
    ensures
        row_outcome(outcome) == decode_row(row.deep_view()),
{
    let id: i32 = match read_id(row) {
        Ok(id) => id,
        Err(fault) => {
            return Err((Field::Id, fault));
        },
    };
    let first_name = match read_text(row, Field::FirstName) {
        Ok(text) => text,
        Err(fault) => {
            return Err((Field::FirstName, fault));
        },
    };
    let last_name = match read_text(row, Field::LastName) {
        Ok(text) => text,
        Err(fault) => {
            return Err((Field::LastName, fault));
        },
    };
    let email = match read_text(row, Field::Email) {
        Ok(text) => text,
        Err(fault) => {
            return Err((Field::Email, fault));
        },
    };
    let gender = match read_text(row, Field::Gender) {
        Ok(text) => text,
        Err(fault) => {
            return Err((Field::Gender, fault));
        },
    };
    let ip_address = match read_text(row, Field::IpAddress) {
        Ok(text) => text,
        Err(fault) => {
            return Err((Field::IpAddress, fault));
        },
    };
    Ok(Record { id, first_name, last_name, email, gender, ip_address })
}

/// The diagnostic for a fault in the element at `index` of the array.
pub fn fault_message(index: usize, field: Field, fault: Fault) -> (text: String)
    ensures
        text@ == fault_text(index as nat, field, fault),
{
    let mut text = String::from_str("element ");
    push_decimal(&mut text, index);
    text.append(": ");
    match fault {
        Fault::Missing => text.append("missing field `"),
        Fault::Invalid => text.append("invalid value for field `"),
    }
    text.append(field.name());
    text.append("`");
    text
}

/// Decodes the objects of a document: the records that they hold, in their
/// order, or a parse failure for the first object that is no record.
pub fn records_from_rows(rows: &Vec<Row>) -> (outcome: Result<Vec<Record>, ImportError>)
    ensures
        outcome_model(outcome) == decode_rows(rows.deep_view()),
        outcome matches Ok(records) ==> records.len() == rows.len(),
{
    let mut records: Vec<Record> = Vec::new();
    let mut i: usize = 0;
    while i < rows.len()
        invariant
            i <= rows.len(),
            records.len() == i,
            forall|j: int|
                0 <= j < i ==> (#[trigger] decode_row(rows.deep_view()[j])) == Ok::<
                    RecordModel,
                    (Field, Fault),
                >(records[j]@),
        decreases rows.len() - i,
    {
        match record_from_row(&rows[i]) {
            Ok(record) => {
                records.push(record);
            },
            Err((field, fault)) => {
                let diagnostic = fault_message(i, field, fault);
                assert(first_faulty(rows.deep_view(), i as int));
                return Err(ImportError::Parse { diagnostic });
            },
        }
        i += 1;
    }
    assert(records.deep_view() =~= rows.deep_view().map_values(
        |row: RowModel| decode_row(row)->Ok_0,
    ));
    Ok(records)
}

} // verus!
