use record_import::decode::{fault_message, find, record_from_row, records_from_rows, Fault};
use record_import::document::{FieldValue, Row};
use record_import::error::ImportError;
use record_import::import::import_parsed;
use record_import::record::{Field, Record};

fn text(value: &str) -> FieldValue {
    FieldValue::Text(value.to_string())
}

fn entry(key: &str, value: FieldValue) -> (String, FieldValue) {
    (key.to_string(), value)
}

fn grace_row() -> Row {
    vec![
        entry("id", FieldValue::Number(Some(7))),
        entry("first_name", text("Grace")),
        entry("last_name", text("Hopper")),
        entry("email", text("grace@example.com")),
        entry("gender", text("F")),
        entry("ip_address", text("10.0.0.7")),
    ]
}

fn grace() -> Record {
    Record {
        id: 7,
        first_name: "Grace".to_string(),
        last_name: "Hopper".to_string(),
        email: "grace@example.com".to_string(),
        gender: "F".to_string(),
        ip_address: "10.0.0.7".to_string(),
    }
}

fn without(row: Row, key: &str) -> Row {
    row.into_iter().filter(|(k, _)| k != key).collect()
}

fn with(row: Row, key: &str, value: FieldValue) -> Row {
    let mut row = without(row, key);
    row.push(entry(key, value));
    row
}

fn parse_failure(diagnostic: &str) -> ImportError {
    ImportError::Parse {
        diagnostic: diagnostic.to_string(),
    }
}

#[test]
fn field_names_are_the_keys_of_the_document() {
    assert_eq!(Field::Id.name(), "id");
    assert_eq!(Field::FirstName.name(), "first_name");
    assert_eq!(Field::LastName.name(), "last_name");
    assert_eq!(Field::Email.name(), "email");
    assert_eq!(Field::Gender.name(), "gender");
    assert_eq!(Field::IpAddress.name(), "ip_address");
}

#[test]
fn find_gives_the_value_under_the_key() {
    let row = grace_row();
    assert_eq!(find(&row, "id"), Some(&FieldValue::Number(Some(7))));
    assert_eq!(find(&row, "gender"), Some(&text("F")));
    assert_eq!(find(&row, "ip_address"), Some(&text("10.0.0.7")));
}

#[test]
fn find_gives_nothing_for_an_absent_key() {
    let row = grace_row();
    assert_eq!(find(&row, "ID"), None);
    assert_eq!(find(&row, ""), None);
    assert_eq!(find(&row, "first_name "), None);
    assert_eq!(find(&Vec::new(), "id"), None);
}

#[test]
fn find_gives_the_last_of_several_entries() {
    let mut row = grace_row();
    row.push(entry("id", FieldValue::Number(Some(8))));
    row.insert(0, entry("id", FieldValue::Null));
    assert_eq!(find(&row, "id"), Some(&FieldValue::Number(Some(8))));
}

#[test]
fn complete_row_is_a_record() {
    assert_eq!(record_from_row(&grace_row()), Ok(grace()));
}

#[test]
fn order_of_entries_does_not_matter() {
    let mut row = grace_row();
    row.reverse();
    assert_eq!(record_from_row(&row), Ok(grace()));
    row.rotate_left(2);
    assert_eq!(record_from_row(&row), Ok(grace()));
}

#[test]
fn entries_under_other_keys_are_not_read() {
    let mut row = grace_row();
    row.insert(0, entry("nickname", FieldValue::Null));
    row.insert(3, entry("tags", FieldValue::Array));
    row.push(entry("address", FieldValue::Object));
    row.push(entry("Id", FieldValue::Number(Some(99))));
    assert_eq!(record_from_row(&row), Ok(grace()));
}

#[test]
fn each_missing_field_of_a_row_is_reported() {
    let fields = [
        Field::Id,
        Field::FirstName,
        Field::LastName,
        Field::Email,
        Field::Gender,
        Field::IpAddress,
    ];
    for field in fields {
        let row = without(grace_row(), field.name());
        assert_eq!(record_from_row(&row), Err((field, Fault::Missing)));
        let expected = format!("element 0: missing field `{}`", field.name());
        assert_eq!(records_from_rows(&vec![row]), Err(parse_failure(&expected)));
    }
}

#[test]
fn empty_row_misses_the_identifier_first() {
    assert_eq!(record_from_row(&Vec::new()), Err((Field::Id, Fault::Missing)));
}

#[test]
fn first_fault_in_the_order_of_the_record_is_reported() {
    let row = without(without(grace_row(), "gender"), "last_name");
    assert_eq!(record_from_row(&row), Err((Field::LastName, Fault::Missing)));
    let row = with(without(grace_row(), "ip_address"), "email", FieldValue::Null);
    assert_eq!(record_from_row(&row), Err((Field::Email, Fault::Invalid)));
}

#[test]
fn identifier_must_be_an_integer() {
    let wrong = [
        FieldValue::Null,
        FieldValue::Bool(true),
        FieldValue::Number(None),
        text("7"),
        FieldValue::Array,
        FieldValue::Object,
    ];
    for value in wrong {
        let row = with(grace_row(), "id", value);
        assert_eq!(record_from_row(&row), Err((Field::Id, Fault::Invalid)));
    }
}

#[test]
fn identifier_must_fit_32_bits() {
    let row = with(grace_row(), "id", FieldValue::Number(Some(2147483647)));
    assert_eq!(record_from_row(&row).map(|record| record.id), Ok(i32::MAX));
    let row = with(grace_row(), "id", FieldValue::Number(Some(-2147483648)));
    assert_eq!(record_from_row(&row).map(|record| record.id), Ok(i32::MIN));
    let row = with(grace_row(), "id", FieldValue::Number(Some(0)));
    assert_eq!(record_from_row(&row).map(|record| record.id), Ok(0));
    for id in [2147483648, -2147483649, i64::MAX, i64::MIN] {
        let row = with(grace_row(), "id", FieldValue::Number(Some(id)));
        assert_eq!(record_from_row(&row), Err((Field::Id, Fault::Invalid)));
    }
}

#[test]
fn text_fields_must_be_strings() {
    let fields = [
        Field::FirstName,
        Field::LastName,
        Field::Email,
        Field::Gender,
        Field::IpAddress,
    ];
    for field in fields {
        let wrong = [
            FieldValue::Null,
            FieldValue::Bool(false),
            FieldValue::Number(Some(1)),
            FieldValue::Number(None),
            FieldValue::Array,
            FieldValue::Object,
        ];
        for value in wrong {
            let row = with(grace_row(), field.name(), value);
            assert_eq!(record_from_row(&row), Err((field, Fault::Invalid)));
        }
    }
}

#[test]
fn text_fields_are_taken_as_they_are() {
    let row = with(grace_row(), "ip_address", text("not an address"));
    let row = with(row, "email", text(""));
    let record = record_from_row(&row).unwrap();
    assert_eq!(record.ip_address, "not an address");
    assert_eq!(record.email, "");
}

#[test]
fn fault_messages_name_the_element_and_the_field() {
    assert_eq!(
        fault_message(0, Field::Id, Fault::Missing),
        "element 0: missing field `id`"
    );
    assert_eq!(
        fault_message(12, Field::IpAddress, Fault::Invalid),
        "element 12: invalid value for field `ip_address`"
    );
    assert_eq!(
        fault_message(1000, Field::FirstName, Fault::Missing),
        "element 1000: missing field `first_name`"
    );
}

#[test]
fn no_rows_are_no_records() {
    assert_eq!(records_from_rows(&Vec::new()), Ok(Vec::new()));
}

#[test]
fn records_keep_the_order_of_the_rows() {
    let rows = vec![
        with(grace_row(), "id", FieldValue::Number(Some(3))),
        with(grace_row(), "id", FieldValue::Number(Some(1))),
        with(grace_row(), "id", FieldValue::Number(Some(2))),
        with(grace_row(), "id", FieldValue::Number(Some(1))),
    ];
    let records = records_from_rows(&rows).unwrap();
    let ids: Vec<i32> = records.iter().map(|record| record.id).collect();
    assert_eq!(ids, vec![3, 1, 2, 1]);
}

#[test]
fn as_many_records_as_rows() {
    for count in [0usize, 1, 2, 17, 300] {
        let rows: Vec<Row> = (0..count).map(|_| grace_row()).collect();
        let records = records_from_rows(&rows).unwrap();
        assert_eq!(records.len(), count);
    }
}

#[test]
fn one_faulty_row_fails_the_whole_array() {
    let rows = vec![
        grace_row(),
        grace_row(),
        without(grace_row(), "email"),
        grace_row(),
    ];
    assert_eq!(
        records_from_rows(&rows),
        Err(parse_failure("element 2: missing field `email`"))
    );
}

#[test]
fn first_faulty_row_is_reported() {
    let rows = vec![
        grace_row(),
        with(grace_row(), "gender", FieldValue::Number(Some(1))),
        without(grace_row(), "id"),
    ];
    assert_eq!(
        records_from_rows(&rows),
        Err(parse_failure("element 1: invalid value for field `gender`"))
    );
}

#[test]
fn parsed_rows_are_decoded() {
    assert_eq!(import_parsed(Ok(vec![grace_row()])), Ok(vec![grace()]));
    assert_eq!(import_parsed(Ok(Vec::new())), Ok(Vec::new()));
    assert_eq!(
        import_parsed(Ok(vec![Vec::new()])),
        Err(parse_failure("element 0: missing field `id`"))
    );
}

#[test]
fn rejected_text_is_a_parse_failure_with_the_diagnostic() {
    assert_eq!(
        import_parsed(Err("expected value at line 1 column 1".to_string())),
        Err(parse_failure("expected value at line 1 column 1"))
    );
}
