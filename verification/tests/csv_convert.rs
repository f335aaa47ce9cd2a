use rcli::csv_convert::{name_fields, name_records, render};
use rcli::{process_csv, OutputFormat, TextError};

const TABLE: &[u8] = b"Name,Position,Nationality\nAda,Forward,Greek\n\"Bo, Jr.\",Keeper,Dutch\n";

#[test]
fn records_become_json_objects() {
    let expected = "[\n  {\n    \"Name\": \"Ada\",\n    \"Nationality\": \"Greek\",\n    \
                    \"Position\": \"Forward\"\n  },\n  {\n    \"Name\": \"Bo, Jr.\",\n    \
                    \"Nationality\": \"Dutch\",\n    \"Position\": \"Keeper\"\n  }\n]";
    assert_eq!(process_csv(TABLE, OutputFormat::Json), Ok(expected.to_string()));
}

#[test]
fn records_become_yaml_mappings() {
    let expected = "- Name: Ada\n  Nationality: Greek\n  Position: Forward\n\
                    - Name: Bo, Jr.\n  Nationality: Dutch\n  Position: Keeper\n";
    assert_eq!(process_csv(TABLE, OutputFormat::Yaml), Ok(expected.to_string()));
}

#[test]
fn names_alone_give_no_records() {
    assert_eq!(process_csv(b"Name,Position\n", OutputFormat::Json), Ok("[]".to_string()));
    assert_eq!(process_csv(b"", OutputFormat::Json), Ok("[]".to_string()));
}

#[test]
fn ragged_records_are_refused() {
    assert_eq!(process_csv(b"a,b\n1,2,3\n", OutputFormat::Json), Err(TextError::InvalidRecords));
    assert_eq!(process_csv(b"a,b\n\xff,2\n", OutputFormat::Yaml), Err(TextError::InvalidRecords));
}

fn strings(items: &[&str]) -> Vec<String> {
    items.iter().map(|s| s.to_string()).collect()
}

#[test]
fn fields_are_paired_with_names_by_position() {
    let pairs = name_fields(&strings(&["a", "b", "c"]), &strings(&["1", "2", "3"]));
    assert_eq!(
        pairs,
        vec![
            ("a".to_string(), "1".to_string()),
            ("b".to_string(), "2".to_string()),
            ("c".to_string(), "3".to_string()),
        ]
    );
    assert_eq!(name_fields(&strings(&["a", "b"]), &strings(&["1"])).len(), 1);
    assert_eq!(name_fields(&strings(&["a"]), &strings(&["1", "2"])).len(), 1);
    assert!(name_fields(&strings(&[]), &strings(&["1"])).is_empty());
}

#[test]
fn every_row_after_the_first_is_a_record() {
    let rows = vec![strings(&["k", "v"]), strings(&["x", "1"]), strings(&["y", "2"])];
    let records = name_records(&rows);
    assert_eq!(records.len(), 2);
    assert_eq!(records[1], vec![("k".to_string(), "y".to_string()), ("v".to_string(), "2".to_string())]);
    assert!(name_records(&Vec::new()).is_empty());
    assert!(name_records(&rows[..1].to_vec()).is_empty());
}

#[test]
fn a_name_that_comes_twice_keeps_its_last_value() {
    let records = vec![vec![
        ("k".to_string(), "first".to_string()),
        ("k".to_string(), "last".to_string()),
    ]];
    assert_eq!(render(&records, OutputFormat::Json), Ok("[\n  {\n    \"k\": \"last\"\n  }\n]".to_string()));
    assert_eq!(render(&records, OutputFormat::Yaml), Ok("- k: last\n".to_string()));
}
