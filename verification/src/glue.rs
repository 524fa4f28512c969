//! The create-table request in the catalog client's own types.
//!
//! The values of `aws_sdk_glue` are opaque here. What one of them holds is
//! spoken of through names, one for each of the client's accessors that the
//! contracts need: `column_name(column)` is what `Column::name` returns for
//! that column, and so on. With them the contracts of [`column_input`] and
//! [`table_input`] say which value of a request stands in which field.
//!
//! The four functions at the end of this module hand the fields to the
//! client's builders. Their bodies are not verified; their contracts say
//! what the builders' source shows, and are taken on trust.

use crate::descriptor::{
    has_key, has_repeated_key, is_valid, parameter_map, parameter_models, repeated_key,
    lemma_parameter_map, Parameter, ParameterModel, TableModel,
};
use crate::error::ConstructionError;
use crate::wire::{
    entry_models, entry_of, flag_text, from_request, request_of, table_in, ColumnEntry,
    ColumnEntryModel, CreateTableRequest, RequestModel, NULLABLE_KEY,
};
use aws_sdk_glue::error::BuildError;
use aws_sdk_glue::types::{Column, SerDeInfo, StorageDescriptor, TableInput};
use vstd::prelude::*;

verus! {

/// `aws_sdk_glue::types::Column`, a column of a table as the client sends it.
#[verifier::external_type_specification]
#[verifier::external_body]
pub struct ExColumn(aws_sdk_glue::types::Column);

/// `aws_sdk_glue::types::SerDeInfo`, which names the serialization library.
#[verifier::external_type_specification]
#[verifier::external_body]
pub struct ExSerDeInfo(aws_sdk_glue::types::SerDeInfo);

/// `aws_sdk_glue::types::StorageDescriptor`, the physical layout of a table.
#[verifier::external_type_specification]
#[verifier::external_body]
pub struct ExStorageDescriptor(aws_sdk_glue::types::StorageDescriptor);

/// `aws_sdk_glue::types::TableInput`, the table definition of a create-table call.
#[verifier::external_type_specification]
#[verifier::external_body]
pub struct ExTableInput(aws_sdk_glue::types::TableInput);

/// `aws_sdk_glue::error::BuildError`, with which a builder turns a value down.
#[verifier::external_type_specification]
#[verifier::external_body]
pub struct ExBuildError(aws_sdk_glue::error::BuildError);

/// What `Column::name` returns.
pub uninterp spec fn column_name(column: Column) -> Seq<char>;

/// What the accessor of a `Column`'s type returns.
pub uninterp spec fn column_type(column: Column) -> Option<Seq<char>>;

/// What `Column::comment` returns.
pub uninterp spec fn column_comment(column: Column) -> Option<Seq<char>>;

/// What `Column::parameters` returns, as a mapping from key to value.
pub uninterp spec fn column_parameters(column: Column) -> Option<Map<Seq<char>, Seq<char>>>;

/// What `SerDeInfo::serialization_library` returns.
pub uninterp spec fn serde_library(info: SerDeInfo) -> Option<Seq<char>>;

/// What `StorageDescriptor::location` returns.
pub uninterp spec fn storage_location(storage: StorageDescriptor) -> Option<Seq<char>>;

/// What `StorageDescriptor::input_format` returns.
pub uninterp spec fn storage_input_format(storage: StorageDescriptor) -> Option<Seq<char>>;

/// What `StorageDescriptor::output_format` returns.
pub uninterp spec fn storage_output_format(storage: StorageDescriptor) -> Option<Seq<char>>;

/// What `StorageDescriptor::columns` returns.
pub uninterp spec fn storage_columns(storage: StorageDescriptor) -> Seq<Column>;

/// What `StorageDescriptor::serde_info` returns.
pub uninterp spec fn storage_serde_info(storage: StorageDescriptor) -> Option<SerDeInfo>;

/// What `TableInput::name` returns.
pub uninterp spec fn input_name(input: TableInput) -> Seq<char>;

/// What `TableInput::parameters` returns, as a mapping from key to value.
pub uninterp spec fn input_parameters(input: TableInput) -> Option<Map<Seq<char>, Seq<char>>>;

/// What `TableInput::storage_descriptor` returns.
pub uninterp spec fn input_storage(input: TableInput) -> Option<StorageDescriptor>;

/// The parameters that a vector of pairs holds, in its order.
pub open spec fn pair_models(pairs: Seq<(String, String)>) -> Seq<ParameterModel> {
    Seq::new(pairs.len(), |i: int| ParameterModel { key: pairs[i].0@, value: pairs[i].1@ })
}

/// Whether no two of the pairs bear the same key.
pub open spec fn keys_differ(pairs: Seq<(String, String)>) -> bool {
    !has_repeated_key(pair_models(pairs))
}

/// Whether a client's column holds a column of a request: its name, its
/// type, no comment, and its parameters as a mapping.
pub open spec fn holds_entry(column: Column, entry: ColumnEntryModel) -> bool {
    &&& column_name(column) == entry.name
    &&& column_type(column) == Some(entry.data_type)
    &&& column_comment(column) is None
    &&& column_parameters(column) == Some(parameter_map(entry.parameters))
}

/// Whether a client's storage descriptor holds the layout that a request
/// asks for: the location, the two formats, the serialization library, and
/// the columns of the request, one for one and in their order.
pub open spec fn holds_layout(storage: StorageDescriptor, request: RequestModel) -> bool {
    &&& storage_location(storage) == Some(request.location)
    &&& storage_input_format(storage) == Some(request.input_format)
    &&& storage_output_format(storage) == Some(request.output_format)
    &&& storage_serde_info(storage) is Some
    &&& serde_library(storage_serde_info(storage)->0) == Some(request.serialization_library)
    &&& storage_columns(storage).len() == request.columns.len()
    &&& forall|i: int|
        0 <= i < request.columns.len() ==> holds_entry(
            #[trigger] storage_columns(storage)[i],
            request.columns[i],
        )
}

/// Whether a client's table input holds a request: the table's name, its
/// parameters as a mapping, and its layout.
pub open spec fn holds_request(input: TableInput, request: RequestModel) -> bool {
    &&& input_name(input) == request.table_name
    &&& input_parameters(input) == Some(parameter_map(request.parameters))
    &&& input_storage(input) is Some
    &&& holds_layout(input_storage(input)->0, request)
}

/// A table input that holds the request of a valid table holds the table:
/// its name, its columns in schema order with their names, types and
/// nullability, and each of its parameters, key by key, and no other.
pub proof fn lemma_input_holds_table(input: TableInput, table: TableModel)
    requires
        is_valid(table),
        holds_request(input, request_of(table)),
    ensures
        input_name(input) == table.name,
        storage_location(input_storage(input)->0) == Some(table.storage_location),
        storage_input_format(input_storage(input)->0) == Some(table.input_format),
        storage_output_format(input_storage(input)->0) == Some(table.output_format),
        serde_library(storage_serde_info(input_storage(input)->0)->0) == Some(
            table.serialization_library,
        ),
        storage_columns(input_storage(input)->0).len() == table.columns.len(),
        forall|i: int|
            #![trigger storage_columns(input_storage(input)->0)[i]]
            0 <= i < table.columns.len() ==> {
                let column = storage_columns(input_storage(input)->0)[i];
                &&& column_name(column) == table.columns[i].name
                &&& column_type(column) == Some(table.columns[i].data_type)
                &&& column_parameters(column) == Some(
                    Map::<Seq<char>, Seq<char>>::empty().insert(
                        NULLABLE_KEY@,
                        flag_text(table.columns[i].nullable),
                    ),
                )
            },
        forall|key: Seq<char>|
            (#[trigger] input_parameters(input)->0.dom().contains(key)) <==> has_key(
                table.parameters,
                key,
            ),
        forall|i: int|
            0 <= i < table.parameters.len() ==> input_parameters(input)->0[(
            #[trigger] table.parameters[i]).key] == table.parameters[i].value,
{
    let request = request_of(table);
    let columns = storage_columns(input_storage(input)->0);
    lemma_parameter_map(table.parameters);
    assert forall|i: int| 0 <= i < table.columns.len() implies column_parameters(
        #[trigger] columns[i],
    ) == Some(
        Map::<Seq<char>, Seq<char>>::empty().insert(
            NULLABLE_KEY@,
            flag_text(table.columns[i].nullable),
        ),
    ) by {
        let parameters = entry_of(table.columns[i]).parameters;
        assert(holds_entry(columns[i], request.columns[i]));
        assert(parameters.drop_last().len() == 0);
        assert(parameter_map(parameters) == parameter_map(parameters.drop_last()).insert(
            parameters.last().key,
            parameters.last().value,
        ));
    }
    assert forall|i: int| 0 <= i < table.columns.len() implies column_name(
        #[trigger] columns[i],
    ) == table.columns[i].name && column_type(columns[i]) == Some(table.columns[i].data_type) by {
        assert(holds_entry(columns[i], request.columns[i]));
    }
}

/// Turns the answer of one of the client's builders into the registrar's own.
pub fn accepted<T>(answer: Result<T, BuildError>) -> (outcome: Result<T, ConstructionError>)
    ensures
        match answer {
            Ok(value) => outcome == Ok::<T, ConstructionError>(value),
            Err(_) => outcome == Err::<T, ConstructionError>(ConstructionError::Rejected),
        },
{
    match answer {
        Ok(value) => Ok(value),
        Err(_) => Err(ConstructionError::Rejected),
    }
}

/// Copies parameters into pairs of key and value, in their order.
pub fn to_pairs(parameters: &Vec<Parameter>) -> (pairs: Vec<(String, String)>)
    ensures
        pair_models(pairs@) == parameter_models(parameters@),
{
    let mut pairs: Vec<(String, String)> = Vec::new();
    let mut i: usize = 0;
    while i < parameters.len()
        invariant
            i <= parameters.len(),
            pairs.len() == i,
            forall|k: int|
                0 <= k < i ==> (#[trigger] pairs[k]).0@ == parameters[k].key@ && pairs[k].1@
                    == parameters[k].value@,
        decreases parameters.len() - i,
    {
        pairs.push((parameters[i].key.clone(), parameters[i].value.clone()));
        i = i + 1;
    }
    assert(pair_models(pairs@) =~= parameter_models(parameters@));
    pairs
}

/// Builds the client's column for a column of a request, unless the column
/// bears a parameter key twice. The column that is built holds the entry.
pub fn column_input(entry: &ColumnEntry) -> (built: Result<Column, ConstructionError>)
    ensures
        built is Ok <==> !has_repeated_key(entry@.parameters),
        built is Ok ==> holds_entry(built->Ok_0, entry@),
        built is Err ==> built == Err::<Column, ConstructionError>(
            ConstructionError::DuplicateParameter,
        ),
{
    if repeated_key(&entry.parameters) {
        return Err(ConstructionError::DuplicateParameter);
    }
    let pairs = to_pairs(&entry.parameters);
    accepted(glue_column(entry.name.as_str(), entry.data_type.as_str(), pairs))
}

/// Builds the client's table input for a request. A request that asks for
/// no table, because a column cannot be read or a rule of a descriptor is
/// broken, is refused for that reason. The table input that is built
/// holds the request.
pub fn table_input(request: &CreateTableRequest) -> (built: Result<TableInput, ConstructionError>)
    ensures
        match table_in(request@) {
            Ok(_) => built is Ok && holds_request(built->Ok_0, request@),
            Err(error) => built == Err::<TableInput, ConstructionError>(error),
        },
{
    match from_request(request) {
        Ok(_) => {},
        Err(error) => {
            return Err(error);
        },
    }
    let ghost entries = entry_models(request.columns@);
    let mut columns: Vec<Column> = Vec::new();
    let mut i: usize = 0;
    while i < request.columns.len()
        invariant
            i <= request.columns.len(),
            columns.len() == i,
            entries == entry_models(request.columns@),
            table_in(request@) is Ok,
            forall|k: int| 0 <= k < i ==> holds_entry(#[trigger] columns[k], entries[k]),
        decreases request.columns.len() - i,
    {
        assert(entries[i as int].parameters.len() == 1);
        match column_input(&request.columns[i]) {
            Ok(built) => {
                columns.push(built);
            },
            Err(error) => {
                return Err(error);
            },
        }
        i = i + 1;
    }
    let serde_info = glue_serde_info(request.serialization_library.as_str());
    let storage = glue_storage_descriptor(
        request.location.as_str(),
        columns,
        request.input_format.as_str(),
        request.output_format.as_str(),
        serde_info,
    );
    let pairs = to_pairs(&request.parameters);
    accepted(glue_table_input(request.table_name.as_str(), storage, pairs))
}

/// Trusted: `Column::builder()` of `aws_sdk_glue`, with `name`, `set_type`,
/// `set_parameters` and `build`. `build` fails only where no name was set,
/// and this sets one. It moves each field of the builder into the column
/// and leaves the comment unset. The parameters go in as a map; where no
/// key stands twice, that map holds every pair.
#[verifier::external_body]
fn glue_column(name: &str, data_type: &str, parameters: Vec<(String, String)>) -> (built: Result<
    Column,
    BuildError,
>)
    requires
        keys_differ(parameters@),
    ensures
        built is Ok,
        column_name(built->Ok_0) == name@,
        column_type(built->Ok_0) == Some(data_type@),
        column_comment(built->Ok_0) is None,
        column_parameters(built->Ok_0) == Some(parameter_map(pair_models(parameters@))),
{
    Column::builder()
        .name(name)
        .set_type(Some(data_type.to_owned()))
        .set_parameters(Some(parameters.into_iter().collect()))
        .build()
}

/// Trusted: `SerDeInfo::builder()` of `aws_sdk_glue`, with
/// `serialization_library` and `build`, which cannot fail and moves the
/// library's name into the value.
#[verifier::external_body]
fn glue_serde_info(serialization_library: &str) -> (info: SerDeInfo)
    ensures
        serde_library(info) == Some(serialization_library@),
{
    SerDeInfo::builder().serialization_library(serialization_library).build()
}

/// Trusted: `StorageDescriptor::builder()` of `aws_sdk_glue`, with
/// `location`, `set_columns`, `input_format`, `output_format`, `serde_info`
/// and `build`, which cannot fail and moves each of these into the value.
#[verifier::external_body]
fn glue_storage_descriptor(
    location: &str,
    columns: Vec<Column>,
    input_format: &str,
    output_format: &str,
    serde_info: SerDeInfo,
) -> (storage: StorageDescriptor)
    ensures
        storage_location(storage) == Some(location@),
        storage_input_format(storage) == Some(input_format@),
        storage_output_format(storage) == Some(output_format@),
        storage_columns(storage) == columns@,
        storage_serde_info(storage) == Some(serde_info),
{
    StorageDescriptor::builder()
        .location(location)
        .set_columns(Some(columns))
        .input_format(input_format)
        .output_format(output_format)
        .serde_info(serde_info)
        .build()
}

/// Trusted: `TableInput::builder()` of `aws_sdk_glue`, with `name`,
/// `storage_descriptor`, `set_parameters` and `build`. `build` fails only
/// where no name was set, and this sets one. It moves each field of the
/// builder into the table input. The parameters go in as a map; where no
/// key stands twice, that map holds every pair.
#[verifier::external_body]
fn glue_table_input(name: &str, storage: StorageDescriptor, parameters: Vec<(String, String)>) -> (built:
    Result<TableInput, BuildError>)
    requires
        keys_differ(parameters@),
    ensures
        built is Ok,
        input_name(built->Ok_0) == name@,
        input_storage(built->Ok_0) == Some(storage),
        input_parameters(built->Ok_0) == Some(parameter_map(pair_models(parameters@))),
{
    TableInput::builder()
        .name(name)
        .storage_descriptor(storage)
        .set_parameters(Some(parameters.into_iter().collect()))
        .build()
}

} // verus!
