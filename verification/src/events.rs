//! The one table that this registrar knows: a stream of events kept as
//! Parquet files under a fixed location.

use crate::descriptor::{
    create_column, create_parameter, gives, has_key, has_repeated_key, has_repeated_name,
    is_valid, column_models, parameter_models, ColumnDescriptor, ColumnModel, Parameter,
    ParameterModel, TableDescriptor, TableModel,
};
use crate::location::splits_at;
use vstd::prelude::*;

verus! {

/// The name of the table.
pub const TABLE_NAME: &'static str = "events";

/// The database that the table is registered in.
pub const DATABASE_NAME: &'static str = "ally_security";

/// Where the table's files lie.
pub const TABLE_PATH: &'static str = "s3://ally-security-development-events/delta/events";

/// The format in which the files are read.
pub const INPUT_FORMAT: &'static str =
    "org.apache.hadoop.hive.ql.io.parquet.MapredParquetInputFormat";

/// The format in which the files are written.
pub const OUTPUT_FORMAT: &'static str =
    "org.apache.hadoop.hive.ql.io.parquet.MapredParquetOutputFormat";

/// The library that reads the files into rows.
pub const SERIALIZATION_LIBRARY: &'static str =
    "org.apache.hadoop.hive.ql.io.parquet.serde.ParquetHiveSerDe";

/// The key that is documented for naming a table's format provider. The
/// query engine fails on tables that carry it, so it is never set.
pub const PROVIDER_KEY: &'static str = "spark.sql.sources.provider";

/// The key that the query engine does read to learn the table's format,
/// although its use is discouraged.
pub const TABLE_TYPE_KEY: &'static str = "table_type";

/// The schema of the events table.
pub open spec fn events_columns() -> Seq<ColumnModel> {
    seq![
        ColumnModel { name: "id"@, data_type: "string"@, nullable: false },
        ColumnModel { name: "time"@, data_type: "timestamp"@, nullable: false },
        ColumnModel { name: "trace_id"@, data_type: "string"@, nullable: true },
        ColumnModel { name: "source"@, data_type: "string"@, nullable: false },
        ColumnModel { name: "detail_type"@, data_type: "string"@, nullable: false },
    ]
}

/// The parameters of the events table.
pub open spec fn events_parameters() -> Seq<ParameterModel> {
    seq![
        ParameterModel { key: "classification"@, value: "delta"@ },
        ParameterModel { key: TABLE_TYPE_KEY@, value: "DELTA"@ },
    ]
}

/// The events table.
pub open spec fn events_table() -> TableModel {
    TableModel {
        name: TABLE_NAME@,
        database: DATABASE_NAME@,
        storage_location: TABLE_PATH@,
        input_format: INPUT_FORMAT@,
        output_format: OUTPUT_FORMAT@,
        serialization_library: SERIALIZATION_LIBRARY@,
        columns: events_columns(),
        parameters: events_parameters(),
    }
}

/// The events table has five columns with five names, of which `trace_id`
/// alone is nullable. Its parameters give `classification` the value
/// `delta` and `table_type` the value `DELTA`, and hold no provider key. It
/// breaks no rule of a descriptor.
pub proof fn lemma_events_table()
    ensures
        events_table().columns.len() == 5,
        !has_repeated_name(events_table().columns),
        forall|i: int|
            0 <= i < 5 ==> ((#[trigger] events_table().columns[i]).nullable
                <==> events_table().columns[i].name == "trace_id"@),
        gives(events_table().parameters, "classification"@, "delta"@),
        gives(events_table().parameters, TABLE_TYPE_KEY@, "DELTA"@),
        !has_key(events_table().parameters, PROVIDER_KEY@),
        !has_repeated_key(events_table().parameters),
        is_valid(events_table()),
{
    reveal_strlit("id");
    reveal_strlit("time");
    reveal_strlit("trace_id");
    reveal_strlit("source");
    reveal_strlit("detail_type");
    reveal_strlit("classification");
    reveal_strlit("table_type");
    reveal_strlit("spark.sql.sources.provider");
    reveal_strlit("s3://ally-security-development-events/delta/events");
    let columns = events_table().columns;
    let parameters = events_table().parameters;
    assert(columns[0].name.len() == 2);
    assert(columns[1].name.len() == 4);
    assert(columns[2].name.len() == 8);
    assert(columns[3].name.len() == 6);
    assert(columns[4].name.len() == 11);
    assert(parameters[0].key.len() == 14);
    assert(parameters[1].key.len() == 10);
    assert(parameters[0] == (ParameterModel { key: "classification"@, value: "delta"@ }));
    assert(parameters[1] == (ParameterModel { key: "table_type"@, value: "DELTA"@ }));
    assert(splits_at(TABLE_PATH@, 2));
}

/// Describes the events table.
pub fn build_descriptor() -> (table: TableDescriptor)
    ensures
        table@ == events_table(),
        table@.columns.len() == 5,
        !has_repeated_name(table@.columns),
        forall|i: int|
            0 <= i < 5 ==> ((#[trigger] table@.columns[i]).nullable <==> table@.columns[i].name
                == "trace_id"@),
        gives(table@.parameters, "classification"@, "delta"@),
        gives(table@.parameters, TABLE_TYPE_KEY@, "DELTA"@),
        !has_key(table@.parameters, PROVIDER_KEY@),
{
    let mut columns: Vec<ColumnDescriptor> = Vec::new();
    columns.push(create_column("id", "string", false));
    columns.push(create_column("time", "timestamp", false));
    columns.push(create_column("trace_id", "string", true));
    columns.push(create_column("source", "string", false));
    columns.push(create_column("detail_type", "string", false));
    let mut parameters: Vec<Parameter> = Vec::new();
    parameters.push(create_parameter("classification", "delta"));
    parameters.push(create_parameter(TABLE_TYPE_KEY, "DELTA"));
    proof {
        lemma_events_table();
        assert(column_models(columns@) =~= events_columns());
        assert(parameter_models(parameters@) =~= events_parameters());
    }
    TableDescriptor::assemble(
        TABLE_NAME,
        DATABASE_NAME,
        TABLE_PATH,
        INPUT_FORMAT,
        OUTPUT_FORMAT,
        SERIALIZATION_LIBRARY,
        columns,
        parameters,
    )
}

} // verus!
