use aws_sdk_glue::types::{Column, SerDeInfo, StorageDescriptor, TableInput};
use std::collections::HashMap;
use table_registrar::descriptor::create_parameter;
use table_registrar::error::ConstructionError;
use table_registrar::events::build_descriptor;
use table_registrar::glue::{accepted, column_input, table_input, to_pairs};
use table_registrar::wire::{to_request, ColumnEntry, CreateTableRequest};

fn map_of(pairs: &[(&str, &str)]) -> HashMap<String, String> {
    pairs.iter().map(|(k, v)| (k.to_string(), v.to_string())).collect()
}

fn expected_column(name: &str, data_type: &str, flag: &str) -> Column {
    Column::builder()
        .name(name)
        .set_type(Some(data_type.to_string()))
        .set_parameters(Some(map_of(&[("nullable", flag)])))
        .build()
        .unwrap()
}

fn small_request() -> CreateTableRequest {
    CreateTableRequest {
        database_name: "db".to_string(),
        table_name: "t".to_string(),
        location: "s3://bucket/t".to_string(),
        input_format: "in".to_string(),
        output_format: "out".to_string(),
        serialization_library: "lib".to_string(),
        columns: vec![ColumnEntry {
            name: "a".to_string(),
            data_type: "int".to_string(),
            parameters: vec![create_parameter("nullable", "false")],
        }],
        parameters: vec![],
    }
}

#[test]
fn parameters_become_pairs_in_order() {
    let parameters = vec![create_parameter("b", "2"), create_parameter("a", "1")];
    assert_eq!(
        to_pairs(&parameters),
        vec![("b".to_string(), "2".to_string()), ("a".to_string(), "1".to_string())]
    );
    assert_eq!(to_pairs(&vec![]), vec![]);
}

#[test]
fn a_builder_that_answers_with_a_value_is_accepted() {
    let answer = Column::builder().name("id").build();
    assert_eq!(accepted(answer).unwrap().name(), "id");
}

#[test]
fn a_builder_that_refuses_is_reported_as_rejected() {
    let answer = Column::builder().build();
    assert!(answer.is_err());
    assert_eq!(accepted(answer), Err(ConstructionError::Rejected));
}

#[test]
fn a_client_column_holds_the_entry() {
    let entry = ColumnEntry {
        name: "trace_id".to_string(),
        data_type: "string".to_string(),
        parameters: vec![create_parameter("nullable", "true")],
    };
    let built = column_input(&entry).unwrap();
    assert_eq!(built.name(), "trace_id");
    assert_eq!(built.comment(), None);
    assert_eq!(built.parameters(), Some(&map_of(&[("nullable", "true")])));
    assert_eq!(built, expected_column("trace_id", "string", "true"));
}

#[test]
fn a_client_column_keeps_every_parameter() {
    let entry = ColumnEntry {
        name: "c".to_string(),
        data_type: "int".to_string(),
        parameters: vec![create_parameter("nullable", "false"), create_parameter("unit", "ms")],
    };
    let built = column_input(&entry).unwrap();
    assert_eq!(built.parameters(), Some(&map_of(&[("unit", "ms"), ("nullable", "false")])));
}

#[test]
fn a_column_with_a_repeated_key_is_not_built() {
    let entry = ColumnEntry {
        name: "c".to_string(),
        data_type: "int".to_string(),
        parameters: vec![create_parameter("nullable", "false"), create_parameter("nullable", "true")],
    };
    assert_eq!(column_input(&entry), Err(ConstructionError::DuplicateParameter));
}

#[test]
fn the_events_table_input_is_what_the_client_would_build() {
    let built = table_input(&to_request(&build_descriptor())).unwrap();
    let columns = vec![
        expected_column("id", "string", "false"),
        expected_column("time", "timestamp", "false"),
        expected_column("trace_id", "string", "true"),
        expected_column("source", "string", "false"),
        expected_column("detail_type", "string", "false"),
    ];
    let serde_info = SerDeInfo::builder()
        .serialization_library("org.apache.hadoop.hive.ql.io.parquet.serde.ParquetHiveSerDe")
        .build();
    let storage_descriptor = StorageDescriptor::builder()
        .location("s3://ally-security-development-events/delta/events")
        .set_columns(Some(columns))
        .input_format("org.apache.hadoop.hive.ql.io.parquet.MapredParquetInputFormat")
        .output_format("org.apache.hadoop.hive.ql.io.parquet.MapredParquetOutputFormat")
        .serde_info(serde_info)
        .build();
    let expected = TableInput::builder()
        .name("events")
        .storage_descriptor(storage_descriptor)
        .parameters("classification", "delta")
        .parameters("table_type", "DELTA")
        .build()
        .unwrap();
    assert_eq!(built, expected);
}

#[test]
fn the_events_table_input_reads_back_field_by_field() {
    let built = table_input(&to_request(&build_descriptor())).unwrap();
    assert_eq!(built.name(), "events");
    assert_eq!(
        built.parameters(),
        Some(&map_of(&[("classification", "delta"), ("table_type", "DELTA")]))
    );
    assert!(!built.parameters().unwrap().contains_key("spark.sql.sources.provider"));
    let storage = built.storage_descriptor().unwrap();
    assert_eq!(storage.location(), Some("s3://ally-security-development-events/delta/events"));
    assert_eq!(
        storage.input_format(),
        Some("org.apache.hadoop.hive.ql.io.parquet.MapredParquetInputFormat")
    );
    assert_eq!(
        storage.output_format(),
        Some("org.apache.hadoop.hive.ql.io.parquet.MapredParquetOutputFormat")
    );
    assert_eq!(
        storage.serde_info().unwrap().serialization_library(),
        Some("org.apache.hadoop.hive.ql.io.parquet.serde.ParquetHiveSerDe")
    );
    let names: Vec<&str> = storage.columns().iter().map(|c| c.name()).collect();
    assert_eq!(names, vec!["id", "time", "trace_id", "source", "detail_type"]);
    let flags: Vec<&str> = storage
        .columns()
        .iter()
        .map(|c| c.parameters().unwrap().get("nullable").unwrap().as_str())
        .collect();
    assert_eq!(flags, vec!["false", "false", "true", "false", "false"]);
}

#[test]
fn a_table_input_without_parameters_holds_an_empty_map() {
    let built = table_input(&small_request()).unwrap();
    assert_eq!(built.name(), "t");
    assert_eq!(built.parameters(), Some(&HashMap::new()));
    assert_eq!(built.storage_descriptor().unwrap().columns().len(), 1);
}

#[test]
fn a_request_without_columns_is_refused() {
    let mut request = small_request();
    request.columns.clear();
    assert_eq!(table_input(&request), Err(ConstructionError::NoColumns));
}

#[test]
fn a_request_with_a_repeated_column_name_is_refused() {
    let mut request = small_request();
    let again = request.columns[0].clone();
    request.columns.push(again);
    assert_eq!(table_input(&request), Err(ConstructionError::DuplicateColumn));
}

#[test]
fn a_request_with_a_bad_location_is_refused() {
    let mut request = small_request();
    request.location = "/var/data/t".to_string();
    assert_eq!(table_input(&request), Err(ConstructionError::InvalidLocation));
}

#[test]
fn a_request_with_a_repeated_key_is_refused() {
    let mut request = small_request();
    request.parameters = vec![create_parameter("k", "1"), create_parameter("k", "2")];
    assert_eq!(table_input(&request), Err(ConstructionError::DuplicateParameter));
}

#[test]
fn a_request_with_an_unreadable_column_is_refused() {
    let mut request = small_request();
    request.columns.push(ColumnEntry {
        name: "b".to_string(),
        data_type: "int".to_string(),
        parameters: vec![create_parameter("x", "1"), create_parameter("x", "1")],
    });
    assert_eq!(table_input(&request), Err(ConstructionError::MalformedColumn));
    request.columns[1].parameters = vec![create_parameter("nullable", "perhaps")];
    assert_eq!(table_input(&request), Err(ConstructionError::MalformedColumn));
}

#[test]
fn a_table_input_is_refused_whenever_the_request_reads_as_no_table() {
    let mut requests = vec![small_request(), small_request(), small_request(), small_request()];
    requests[1].columns.clear();
    requests[2].location = "s3://".to_string();
    requests[3].columns[0].parameters.clear();
    for request in requests {
        let read = table_registrar::wire::from_request(&request);
        let built = table_input(&request);
        assert_eq!(built.is_ok(), read.is_ok());
        assert_eq!(built.err(), read.err());
    }
}

#[test]
fn a_table_input_holds_every_field_of_a_small_request() {
    let mut request = small_request();
    request.columns.push(ColumnEntry {
        name: "b".to_string(),
        data_type: "string".to_string(),
        parameters: vec![create_parameter("nullable", "true")],
    });
    request.parameters = vec![create_parameter("z", "26"), create_parameter("a", "1")];
    let built = table_input(&request).unwrap();
    assert_eq!(built.name(), "t");
    assert_eq!(built.parameters(), Some(&map_of(&[("a", "1"), ("z", "26")])));
    let storage = built.storage_descriptor().unwrap();
    assert_eq!(storage.location(), Some("s3://bucket/t"));
    assert_eq!(storage.input_format(), Some("in"));
    assert_eq!(storage.output_format(), Some("out"));
    assert_eq!(storage.serde_info().unwrap().serialization_library(), Some("lib"));
    assert_eq!(
        storage.columns(),
        &[expected_column("a", "int", "false"), expected_column("b", "string", "true")]
    );
}
