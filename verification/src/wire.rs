//! The create-table request as it goes over the wire, in plain values: what
//! a descriptor becomes when it is sent, and how a request is read back.
//!
//! On the wire a column has no field for its nullability. It is carried
//! among the column's parameters, under the key `nullable`, as the text
//! `true` or `false`.

use crate::descriptor::{
    column_models, is_valid, parameter_models, violation, ColumnDescriptor, ColumnModel,
    Parameter, ParameterModel, TableDescriptor, TableModel,
};
use crate::error::ConstructionError;
use vstd::prelude::*;

verus! {

/// The parameter key under which a column's nullability travels.
pub const NULLABLE_KEY: &'static str = "nullable";

/// A column of a request.
#[derive(Clone, Debug, PartialEq, Eq)]
pub struct ColumnEntry {
    pub name: String,
    pub data_type: String,
    pub parameters: Vec<Parameter>,
}

/// A column of a request as contracts speak of it.
pub struct ColumnEntryModel {
    pub name: Seq<char>,
    pub data_type: Seq<char>,
    pub parameters: Seq<ParameterModel>,
}

impl View for ColumnEntry {
    type V = ColumnEntryModel;

    open spec fn view(&self) -> ColumnEntryModel {
        ColumnEntryModel {
            name: self.name@,
            data_type: self.data_type@,
            parameters: parameter_models(self.parameters@),
        }
    }
}

/// The columns of a request, in its order, as contracts speak of them.
pub open spec fn entry_models(entries: Seq<ColumnEntry>) -> Seq<ColumnEntryModel> {
    Seq::new(entries.len(), |i: int| entries[i]@)
}

/// One request to create a table in a database of the catalog.
#[derive(Clone, Debug, PartialEq, Eq)]
pub struct CreateTableRequest {
    pub database_name: String,
    pub table_name: String,
    pub location: String,
    pub input_format: String,
    pub output_format: String,
    pub serialization_library: String,
    pub columns: Vec<ColumnEntry>,
    pub parameters: Vec<Parameter>,
}

/// A request as contracts speak of it.
pub struct RequestModel {
    pub database_name: Seq<char>,
    pub table_name: Seq<char>,
    pub location: Seq<char>,
    pub input_format: Seq<char>,
    pub output_format: Seq<char>,
    pub serialization_library: Seq<char>,
    pub columns: Seq<ColumnEntryModel>,
    pub parameters: Seq<ParameterModel>,
}

impl View for CreateTableRequest {
    type V = RequestModel;

    open spec fn view(&self) -> RequestModel {
        RequestModel {
            database_name: self.database_name@,
            table_name: self.table_name@,
            location: self.location@,
            input_format: self.input_format@,
            output_format: self.output_format@,
            serialization_library: self.serialization_library@,
            columns: entry_models(self.columns@),
            parameters: parameter_models(self.parameters@),
        }
    }
}

/// The text that stands for a nullability on the wire.
pub open spec fn flag_text(flag: bool) -> Seq<char> {
    if flag {
        "true"@
    } else {
        "false"@
    }
}

/// The column of a request that stands for a column of a descriptor.
pub open spec fn entry_of(column: ColumnModel) -> ColumnEntryModel {
    ColumnEntryModel {
        name: column.name,
        data_type: column.data_type,
        parameters: seq![ParameterModel { key: NULLABLE_KEY@, value: flag_text(column.nullable) }],
    }
}

/// The request that registers a table: every field as the descriptor has
/// it, every column in its place.
pub open spec fn request_of(table: TableModel) -> RequestModel {
    RequestModel {
        database_name: table.database,
        table_name: table.name,
        location: table.storage_location,
        input_format: table.input_format,
        output_format: table.output_format,
        serialization_library: table.serialization_library,
        columns: Seq::new(table.columns.len(), |i: int| entry_of(table.columns[i])),
        parameters: table.parameters,
    }
}

/// The column that a column of a request stands for, if its one parameter
/// is its nullability, written `true` or `false`.
pub open spec fn column_of(entry: ColumnEntryModel) -> Option<ColumnModel> {
    if entry.parameters.len() == 1 && entry.parameters[0].key == NULLABLE_KEY@ && (
    entry.parameters[0].value == "true"@ || entry.parameters[0].value == "false"@) {
        Some(
            ColumnModel {
                name: entry.name,
                data_type: entry.data_type,
                nullable: entry.parameters[0].value == "true"@,
            },
        )
    } else {
        None
    }
}

/// Whether every column of a request stands for a column of a descriptor.
pub open spec fn all_readable(entries: Seq<ColumnEntryModel>) -> bool {
    forall|i: int| 0 <= i < entries.len() ==> column_of(#[trigger] entries[i]) is Some
}

/// The table that a request asks for, or the reason why it asks for none:
/// a column that cannot be read, or else the first rule that the table breaks.
pub open spec fn table_in(request: RequestModel) -> Result<TableModel, ConstructionError> {
    if !all_readable(request.columns) {
        Err(ConstructionError::MalformedColumn)
    } else {
        let table = TableModel {
            name: request.table_name,
            database: request.database_name,
            storage_location: request.location,
            input_format: request.input_format,
            output_format: request.output_format,
            serialization_library: request.serialization_library,
            columns: Seq::new(request.columns.len(), |i: int| column_of(request.columns[i])->0),
            parameters: request.parameters,
        };
        match violation(table) {
            Some(error) => Err(error),
            None => Ok(table),
        }
    }
}

/// A column of a descriptor, sent and read back, is the same column.
pub proof fn lemma_column_round_trip(column: ColumnModel)
    ensures
        column_of(entry_of(column)) == Some(column),
{
    reveal_strlit("true");
    reveal_strlit("false");
    assert("true"@.len() != "false"@.len());
}

/// A valid table, sent as a request and read back, is the same table: its
/// columns in their order, its parameters with their keys and values in
/// their order, and every other field.
pub proof fn lemma_request_round_trip(table: TableModel)
    requires
        is_valid(table),
    ensures
        table_in(request_of(table)) == Ok::<TableModel, ConstructionError>(table),
{
    let request = request_of(table);
    assert forall|i: int| 0 <= i < request.columns.len() implies column_of(
        #[trigger] request.columns[i],
    ) == Some(table.columns[i]) by {
        lemma_column_round_trip(table.columns[i]);
    }
    assert(Seq::new(request.columns.len(), |i: int| column_of(request.columns[i])->0)
        =~= table.columns);
}

/// Writes a nullability as it travels on the wire.
pub fn render_flag(flag: bool) -> (text: String)
    ensures
        text@ == flag_text(flag),
{
    if flag {
        "true".to_owned()
    } else {
        "false".to_owned()
    }
}

/// Copies a parameter.
pub fn copy_parameter(parameter: &Parameter) -> (copy: Parameter)
    ensures
        copy@ == parameter@,
{
    Parameter { key: parameter.key.clone(), value: parameter.value.clone() }
}

/// Copies parameters, in their order.
pub fn copy_parameters(parameters: &Vec<Parameter>) -> (copies: Vec<Parameter>)
    ensures
        parameter_models(copies@) == parameter_models(parameters@),
{
    let mut copies: Vec<Parameter> = Vec::new();
    let mut i: usize = 0;
    while i < parameters.len()
        invariant
            i <= parameters.len(),
            copies.len() == i,
            forall|k: int| 0 <= k < i ==> (#[trigger] copies[k])@ == parameters[k]@,
        decreases parameters.len() - i,
    {
        copies.push(copy_parameter(&parameters[i]));
        i = i + 1;
    }
    assert(parameter_models(copies@) =~= parameter_models(parameters@));
    copies
}

/// Writes a column as it travels on the wire.
pub fn to_entry(column: &ColumnDescriptor) -> (entry: ColumnEntry)
    ensures
        entry@ == entry_of(column@),
{
    let mut parameters: Vec<Parameter> = Vec::new();
    parameters.push(Parameter { key: NULLABLE_KEY.to_owned(), value: render_flag(column.nullable) });
    let entry = ColumnEntry {
        name: column.name.clone(),
        data_type: column.data_type.clone(),
        parameters,
    };
    assert(entry@.parameters =~= entry_of(column@).parameters);
    entry
}

/// Reads a column of a request, if its one parameter is its nullability.
pub fn from_entry(entry: &ColumnEntry) -> (column: Option<ColumnDescriptor>)
    ensures
        match column_of(entry@) {
            Some(model) => column is Some && column->0@ == model,
            None => column is None,
        },
{
    if entry.parameters.len() != 1 {
        return None;
    }
    let flag: &Parameter = &entry.parameters[0];
    assert(entry@.parameters[0] == flag@);
    let key: String = NULLABLE_KEY.to_owned();
    let yes: String = "true".to_owned();
    let no: String = "false".to_owned();
    if flag.key != key {
        return None;
    }
    let nullable: bool = flag.value == yes;
    if !nullable && flag.value != no {
        return None;
    }
    Some(
        ColumnDescriptor {
            name: entry.name.clone(),
            data_type: entry.data_type.clone(),
            nullable,
        },
    )
}

/// Writes the request that registers a table.
pub fn to_request(table: &TableDescriptor) -> (request: CreateTableRequest)
    ensures
        request@ == request_of(table@),
{
    let columns: &Vec<ColumnDescriptor> = table.columns();
    let mut entries: Vec<ColumnEntry> = Vec::new();
    let mut i: usize = 0;
    while i < columns.len()
        invariant
            i <= columns.len(),
            entries.len() == i,
            forall|k: int| 0 <= k < i ==> (#[trigger] entries[k])@ == entry_of(columns[k]@),
        decreases columns.len() - i,
    {
        entries.push(to_entry(&columns[i]));
        i = i + 1;
    }
    let request = CreateTableRequest {
        database_name: table.database().to_owned(),
        table_name: table.name().to_owned(),
        location: table.storage_location().to_owned(),
        input_format: table.input_format().to_owned(),
        output_format: table.output_format().to_owned(),
        serialization_library: table.serialization_library().to_owned(),
        columns: entries,
        parameters: copy_parameters(table.parameters()),
    };
    assert(request@.columns =~= request_of(table@).columns);
    request
}

/// Reads the table that a request asks for.
pub fn from_request(request: &CreateTableRequest) -> (read: Result<
    TableDescriptor,
    ConstructionError,
>)
    ensures
        match table_in(request@) {
            Ok(table) => read is Ok && read->Ok_0@ == table,
            Err(error) => read == Err::<TableDescriptor, ConstructionError>(error),
        },
{
    let ghost entries = entry_models(request.columns@);
    let mut columns: Vec<ColumnDescriptor> = Vec::new();
    let mut i: usize = 0;
    while i < request.columns.len()
        invariant
            i <= request.columns.len(),
            columns.len() == i,
            entries == entry_models(request.columns@),
            forall|k: int| 0 <= k < i ==> column_of(#[trigger] entries[k]) == Some(columns[k]@),
        decreases request.columns.len() - i,
    {
        match from_entry(&request.columns[i]) {
            Some(column) => {
                columns.push(column);
            },
            None => {
                assert(column_of(entries[i as int]) is None);
                return Err(ConstructionError::MalformedColumn);
            },
        }
        i = i + 1;
    }
    assert(all_readable(entries));
    assert(column_models(columns@) =~= Seq::new(
        entries.len(),
        |k: int| column_of(entries[k])->0,
    ));
    TableDescriptor::new(
        request.table_name.as_str(),
        request.database_name.as_str(),
        request.location.as_str(),
        request.input_format.as_str(),
        request.output_format.as_str(),
        request.serialization_library.as_str(),
        columns,
        copy_parameters(&request.parameters),
    )
}

} // verus!
