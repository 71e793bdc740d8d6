use record_import::error::ImportError;
use record_import::import::{import_data, import_text};
use record_import::record::Record;
use record_import::report::{report, Stream};

fn ada() -> Record {
    Record {
        id: 1,
        first_name: "Ada".to_string(),
        last_name: "Lovelace".to_string(),
        email: "a@example.com".to_string(),
        gender: "F".to_string(),
        ip_address: "1.2.3.4".to_string(),
    }
}

#[test]
fn one_record_is_loaded() {
    let text = r#"[{"id":1,"first_name":"Ada","last_name":"Lovelace","email":"a@example.com","gender":"F","ip_address":"1.2.3.4"}]"#;
    let outcome = import_text(text);
    assert_eq!(outcome, Ok(vec![ada()]));
    let printed = report(&outcome);
    assert_eq!(printed.stream, Stream::Stdout);
    assert_eq!(printed.line, "Loaded 1 records");
}

#[test]
fn one_record_is_loaded_from_a_file_that_was_read() {
    let text = r#"[{"id":1,"first_name":"Ada","last_name":"Lovelace","email":"a@example.com","gender":"F","ip_address":"1.2.3.4"}]"#;
    let outcome = import_data("data/MOCK_DATA.json", Ok(text.to_string()));
    assert_eq!(outcome, Ok(vec![ada()]));
    assert_eq!(report(&outcome).line, "Loaded 1 records");
}

#[test]
fn empty_array_is_loaded_as_no_records() {
    let outcome = import_text("[]");
    assert_eq!(outcome, Ok(vec![]));
    let printed = report(&outcome);
    assert_eq!(printed.stream, Stream::Stdout);
    assert_eq!(printed.line, "Loaded 0 records");
}

#[test]
fn empty_array_with_blanks_is_loaded_as_no_records() {
    assert_eq!(import_text(" [ \n ] \n"), Ok(vec![]));
}

#[test]
fn text_that_is_not_json_is_a_parse_failure() {
    let outcome = import_text("not json");
    match &outcome {
        Err(error) => {
            assert!(error.is_parse());
            assert!(!error.is_io());
        }
        Ok(_) => panic!("the text was accepted"),
    }
    let printed = report(&outcome);
    assert_eq!(printed.stream, Stream::Stderr);
    assert!(printed.line.starts_with("Error reading JSON:"));
    assert_eq!(printed.line, "Error reading JSON: expected ident at line 1 column 2");
}

#[test]
fn file_that_does_not_exist_is_a_read_failure() {
    let cause = "No such file or directory (os error 2)";
    let outcome = import_data("data/does_not_exist.json", Err(cause.to_string()));
    assert_eq!(
        outcome,
        Err(ImportError::Io {
            path: "data/does_not_exist.json".to_string(),
            cause: cause.to_string(),
        })
    );
    match &outcome {
        Err(error) => {
            assert!(error.is_io());
            assert!(!error.is_parse());
        }
        Ok(_) => panic!("the read failure was lost"),
    }
    let printed = report(&outcome);
    assert_eq!(printed.stream, Stream::Stderr);
    assert!(printed.line.starts_with("Error reading JSON:"));
    assert_eq!(
        printed.line,
        "Error reading JSON: No such file or directory (os error 2)"
    );
}
