//! What holds of every import.

use crate::decode::{decode_row, decode_rows, first_faulty, lookup, Fault};
use crate::document::{FieldModel, RowModel};
use crate::error::ImportErrorModel;
use crate::record::{lemma_keys_distinct, Field, RecordModel};
use vstd::prelude::*;

verus! {

/// Whether `row` spells out `record`: under the key of each field it holds
/// the record's value. The order of the entries and entries under other keys
/// do not matter.
pub open spec fn spells(row: RowModel, record: RecordModel) -> bool {
    &&& lookup(row, Field::Id.key()) == Some(FieldModel::Number(Some(record.id)))
    &&& lookup(row, Field::FirstName.key()) == Some(FieldModel::Text(record.first_name))
    &&& lookup(row, Field::LastName.key()) == Some(FieldModel::Text(record.last_name))
    &&& lookup(row, Field::Email.key()) == Some(FieldModel::Text(record.email))
    &&& lookup(row, Field::Gender.key()) == Some(FieldModel::Text(record.gender))
    &&& lookup(row, Field::IpAddress.key()) == Some(FieldModel::Text(record.ip_address))
}

/// The object that a record is written as: one entry for each field, in the
/// record's order.
pub open spec fn row_of(record: RecordModel) -> RowModel {
    seq![
        (Field::Id.key(), FieldModel::Number(Some(record.id))),
        (Field::FirstName.key(), FieldModel::Text(record.first_name)),
        (Field::LastName.key(), FieldModel::Text(record.last_name)),
        (Field::Email.key(), FieldModel::Text(record.email)),
        (Field::Gender.key(), FieldModel::Text(record.gender)),
        (Field::IpAddress.key(), FieldModel::Text(record.ip_address)),
    ]
}

/// An object that spells out a record whose identifier fits `i32` decodes
/// to that record.
pub proof fn lemma_spelled_row_decodes(row: RowModel, record: RecordModel)
    requires
        record.valid(),
        spells(row, record),
    ensures
        decode_row(row) == Ok::<RecordModel, (Field, Fault)>(record),
{
}

/// Where each object of an array spells out the record at the same place of
/// a sequence of records whose identifiers fit `i32`, decoding the array
/// gives that sequence, field for field and in the same order.
pub proof fn lemma_round_trip(records: Seq<RecordModel>, rows: Seq<RowModel>)
    requires
        rows.len() == records.len(),
        forall|i: int| 0 <= i < records.len() ==> (#[trigger] records[i]).valid(),
        forall|i: int| 0 <= i < records.len() ==> spells(#[trigger] rows[i], records[i]),
    ensures
        decode_rows(rows) == Ok::<Seq<RecordModel>, ImportErrorModel>(records),
{
    assert forall|i: int| 0 <= i < rows.len() implies (#[trigger] decode_row(rows[i])) == Ok::<
        RecordModel,
        (Field, Fault),
    >(records[i]) by {
        lemma_spelled_row_decodes(rows[i], records[i]);
    }
    assert(rows.map_values(|row: RowModel| decode_row(row)->Ok_0) =~= records);
}

/// The object that a record is written as spells out the record.
pub proof fn lemma_written_row_spells(record: RecordModel)
    ensures
        spells(row_of(record), record),
{
    assert forall|a: Field, b: Field| a != b implies a.key() != b.key() by {
        lemma_keys_distinct(a, b);
    }
    reveal_with_fuel(lookup, 7);
}

/// Decoding undoes writing: the objects that a sequence of records is
/// written as, where the identifiers fit `i32`, decode to the sequence.
pub proof fn lemma_written_round_trip(records: Seq<RecordModel>)
    requires
        forall|i: int| 0 <= i < records.len() ==> (#[trigger] records[i]).valid(),
    ensures
        decode_rows(records.map_values(|record: RecordModel| row_of(record))) == Ok::<
            Seq<RecordModel>,
            ImportErrorModel,
        >(records),
{
    let rows = records.map_values(|record: RecordModel| row_of(record));
    assert forall|i: int| 0 <= i < records.len() implies spells(#[trigger] rows[i], records[i]) by {
        lemma_written_row_spells(records[i]);
    }
    lemma_round_trip(records, rows);
}

/// An import that succeeds returns as many records as the array has
/// elements, and the record at each place is the one that the element at
/// that place holds.
pub proof fn lemma_count_preserved(rows: Seq<RowModel>)
    ensures
        decode_rows(rows) matches Ok(records) ==> {
            &&& records.len() == rows.len()
            &&& forall|i: int|
                0 <= i < rows.len() ==> (#[trigger] decode_row(rows[i])) == Ok::<
                    RecordModel,
                    (Field, Fault),
                >(records[i])
        },
{
    if decode_rows(rows) is Ok {
        assert forall|i: int| 0 <= i < rows.len() implies (#[trigger] decode_row(rows[i])) is Ok by {
            if decode_row(rows[i]) is Err {
                lemma_first_faulty_exists(rows, i);
            }
        }
    }
}

/// The empty array imports as no records.
pub proof fn lemma_empty_array_imports()
    ensures
        decode_rows(Seq::<RowModel>::empty()) == Ok::<Seq<RecordModel>, ImportErrorModel>(
            Seq::empty(),
        ),
{
    let rows = Seq::<RowModel>::empty();
    assert(rows.map_values(|row: RowModel| decode_row(row)->Ok_0) =~= Seq::<RecordModel>::empty());
}

/// Where some object of an array is no record, some object is the first
/// such.
pub proof fn lemma_first_faulty_exists(rows: Seq<RowModel>, index: int)
    requires
        0 <= index < rows.len(),
        decode_row(rows[index]) is Err,
    ensures
        exists|first: int| 0 <= first <= index && first_faulty(rows, first),
    decreases index,
{
    if exists|j: int| 0 <= j < index && (#[trigger] decode_row(rows[j])) is Err {
        let j = choose|j: int| 0 <= j < index && (#[trigger] decode_row(rows[j])) is Err;
        lemma_first_faulty_exists(rows, j);
    } else {
        assert(first_faulty(rows, index));
    }
}

/// An array fails as a whole where one of its objects is no record: the
/// import is a parse failure, and no records are returned.
pub proof fn lemma_faulty_row_fails(rows: Seq<RowModel>, index: int)
    requires
        0 <= index < rows.len(),
        decode_row(rows[index]) is Err,
    ensures
        decode_rows(rows) matches Err(error) && error is Parse,
{
    lemma_first_faulty_exists(rows, index);
}

/// An array with an object that has no entry under the key of one of the
/// six fields fails to import, with a parse failure.
pub proof fn lemma_missing_field_fails(rows: Seq<RowModel>, index: int, field: Field)
    requires
        0 <= index < rows.len(),
        lookup(rows[index], field.key()) is None,
    ensures
        decode_rows(rows) matches Err(error) && error is Parse,
{
    lemma_faulty_row_fails(rows, index);
}

} // verus!
