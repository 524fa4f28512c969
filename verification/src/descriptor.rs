//! Table and column descriptors, and the rules a descriptor has to meet.

use crate::error::ConstructionError;
use crate::location::{is_object_uri, object_uri};
use vstd::prelude::*;

verus! {

/// One column of a table's schema.
#[derive(Clone, Debug, PartialEq, Eq)]
pub struct ColumnDescriptor {
    /// The column's name.
    pub name: String,
    /// The name of the column's type, as the query engine knows it.
    pub data_type: String,
    /// Whether the column may hold no value.
    pub nullable: bool,
}

/// A column as contracts speak of it.
pub struct ColumnModel {
    pub name: Seq<char>,
    pub data_type: Seq<char>,
    pub nullable: bool,
}

impl View for ColumnDescriptor {
    type V = ColumnModel;

    open spec fn view(&self) -> ColumnModel {
        ColumnModel { name: self.name@, data_type: self.data_type@, nullable: self.nullable }
    }
}

/// One free-form parameter: a key and the value that goes with it.
#[derive(Clone, Debug, PartialEq, Eq)]
pub struct Parameter {
    pub key: String,
    pub value: String,
}

/// A parameter as contracts speak of it.
pub struct ParameterModel {
    pub key: Seq<char>,
    pub value: Seq<char>,
}

impl View for Parameter {
    type V = ParameterModel;

    open spec fn view(&self) -> ParameterModel {
        ParameterModel { key: self.key@, value: self.value@ }
    }
}

/// The columns of a vector, in its order, as contracts speak of them.
pub open spec fn column_models(columns: Seq<ColumnDescriptor>) -> Seq<ColumnModel> {
    Seq::new(columns.len(), |i: int| columns[i]@)
}

/// The parameters of a vector, in its order, as contracts speak of them.
pub open spec fn parameter_models(parameters: Seq<Parameter>) -> Seq<ParameterModel> {
    Seq::new(parameters.len(), |i: int| parameters[i]@)
}

/// A table descriptor as contracts speak of it.
pub struct TableModel {
    pub name: Seq<char>,
    pub database: Seq<char>,
    pub storage_location: Seq<char>,
    pub input_format: Seq<char>,
    pub output_format: Seq<char>,
    pub serialization_library: Seq<char>,
    pub columns: Seq<ColumnModel>,
    pub parameters: Seq<ParameterModel>,
}

/// The table that is made of these values.
pub open spec fn table_of(
    name: Seq<char>,
    database: Seq<char>,
    storage_location: Seq<char>,
    input_format: Seq<char>,
    output_format: Seq<char>,
    serialization_library: Seq<char>,
    columns: Seq<ColumnDescriptor>,
    parameters: Seq<Parameter>,
) -> TableModel {
    TableModel {
        name,
        database,
        storage_location,
        input_format,
        output_format,
        serialization_library,
        columns: column_models(columns),
        parameters: parameter_models(parameters),
    }
}

/// Whether two of the columns bear the same name.
pub open spec fn has_repeated_name(columns: Seq<ColumnModel>) -> bool {
    exists|i: int, j: int|
        #![trigger columns[i], columns[j]]
        0 <= i < j < columns.len() && columns[i].name == columns[j].name
}

/// Whether two of the parameters bear the same key.
pub open spec fn has_repeated_key(parameters: Seq<ParameterModel>) -> bool {
    exists|i: int, j: int|
        #![trigger parameters[i], parameters[j]]
        0 <= i < j < parameters.len() && parameters[i].key == parameters[j].key
}

/// Whether one of the parameters bears the key `key`.
pub open spec fn has_key(parameters: Seq<ParameterModel>, key: Seq<char>) -> bool {
    exists|i: int| 0 <= i < parameters.len() && (#[trigger] parameters[i]).key == key
}

/// Whether the parameters give `key` the value `value`.
pub open spec fn gives(parameters: Seq<ParameterModel>, key: Seq<char>, value: Seq<char>) -> bool {
    exists|i: int|
        0 <= i < parameters.len() && (#[trigger] parameters[i]) == (ParameterModel { key, value })
}

/// The mapping that the parameters stand for: each key with its value.
/// Where a key stands twice, the value that stands later holds.
pub open spec fn parameter_map(parameters: Seq<ParameterModel>) -> Map<Seq<char>, Seq<char>>
    decreases parameters.len(),
{
    if parameters.len() == 0 {
        Map::empty()
    } else {
        parameter_map(parameters.drop_last()).insert(
            parameters.last().key,
            parameters.last().value,
        )
    }
}

/// The mapping of parameters holds their keys and no others. Where no key
/// stands twice, it gives every key the value that stands with it.
pub proof fn lemma_parameter_map(parameters: Seq<ParameterModel>)
    ensures
        forall|key: Seq<char>|
            (#[trigger] parameter_map(parameters).dom().contains(key)) <==> has_key(
                parameters,
                key,
            ),
        !has_repeated_key(parameters) ==> forall|i: int|
            0 <= i < parameters.len() ==> parameter_map(parameters)[(
            #[trigger] parameters[i]).key] == parameters[i].value,
    decreases parameters.len(),
{
    if parameters.len() > 0 {
        let front = parameters.drop_last();
        let last = parameters.last();
        let n = parameters.len() - 1;
        lemma_parameter_map(front);
        assert forall|key: Seq<char>|
            (#[trigger] parameter_map(parameters).dom().contains(key)) <==> has_key(
                parameters,
                key,
            ) by {
            let earlier = parameter_map(front).dom().contains(key);
            assert(earlier <==> has_key(front, key));
            assert(parameter_map(parameters).dom().contains(key) <==> (key == last.key
                || earlier));
            if has_key(front, key) {
                let i = choose|i: int| 0 <= i < front.len() && (#[trigger] front[i]).key == key;
                assert(parameters[i].key == key);
            }
            if key == last.key {
                assert(parameters[n].key == key);
            }
            if has_key(parameters, key) && key != last.key {
                let i = choose|i: int|
                    0 <= i < parameters.len() && (#[trigger] parameters[i]).key == key;
                assert(front[i].key == key);
            }
        }
        if !has_repeated_key(parameters) {
            assert(!has_repeated_key(front)) by {
                if has_repeated_key(front) {
                    let (i, j) = choose|i: int, j: int|
                        #![trigger front[i], front[j]]
                        0 <= i < j < front.len() && front[i].key == front[j].key;
                    assert(parameters[i].key == parameters[j].key);
                }
            }
            assert forall|i: int| 0 <= i < parameters.len() implies parameter_map(parameters)[(
            #[trigger] parameters[i]).key] == parameters[i].value by {
                if i < n {
                    assert(front[i] == parameters[i]);
                    assert(parameters[i].key != parameters[n].key);
                }
            }
        }
    }
}

/// The first rule that a table breaks, in the order in which they are
/// tested: at least one column, no column name twice, a storage location
/// that is an object-storage URI, no parameter key twice.
pub open spec fn violation(table: TableModel) -> Option<ConstructionError> {
    if table.columns.len() == 0 {
        Some(ConstructionError::NoColumns)
    } else if has_repeated_name(table.columns) {
        Some(ConstructionError::DuplicateColumn)
    } else if !is_object_uri(table.storage_location) {
        Some(ConstructionError::InvalidLocation)
    } else if has_repeated_key(table.parameters) {
        Some(ConstructionError::DuplicateParameter)
    } else {
        None
    }
}

/// Whether a table meets every rule of a descriptor.
pub open spec fn is_valid(table: TableModel) -> bool {
    violation(table) is None
}

/// Describes a column by its name, the name of its type and whether it may hold no value.
pub fn create_column(name: &str, data_type: &str, nullable: bool) -> (column: ColumnDescriptor)
    ensures
        column@ == (ColumnModel { name: name@, data_type: data_type@, nullable }),
{
    ColumnDescriptor { name: name.to_owned(), data_type: data_type.to_owned(), nullable }
}

/// Makes a parameter of a key and a value.
pub fn create_parameter(key: &str, value: &str) -> (parameter: Parameter)
    ensures
        parameter@ == (ParameterModel { key: key@, value: value@ }),
{
    Parameter { key: key.to_owned(), value: value.to_owned() }
}

/// Tells whether two of the columns bear the same name.
pub fn repeated_name(columns: &Vec<ColumnDescriptor>) -> (found: bool)
    ensures
        found == has_repeated_name(column_models(columns@)),
{
    let ghost models = column_models(columns@);
    let n: usize = columns.len();
    let mut j: usize = 0;
    while j < n
        invariant
            j <= n,
            n == columns.len(),
            models == column_models(columns@),
            forall|a: int, b: int|
                #![trigger models[a], models[b]]
                0 <= a < b < j ==> models[a].name != models[b].name,
        decreases n - j,
    {
        let mut i: usize = 0;
        while i < j
            invariant
                i <= j < n,
                n == columns.len(),
                models == column_models(columns@),
                forall|a: int| 0 <= a < i ==> (#[trigger] models[a]).name != models[j as int].name,
            decreases j - i,
        {
            if columns[i].name == columns[j].name {
                assert(models[i as int].name == models[j as int].name);
                return true;
            }
            i = i + 1;
        }
        j = j + 1;
    }
    false
}

/// Tells whether two of the parameters bear the same key.
pub fn repeated_key(parameters: &Vec<Parameter>) -> (found: bool)
    ensures
        found == has_repeated_key(parameter_models(parameters@)),
{
    let ghost models = parameter_models(parameters@);
    let n: usize = parameters.len();
    let mut j: usize = 0;
    while j < n
        invariant
            j <= n,
            n == parameters.len(),
            models == parameter_models(parameters@),
            forall|a: int, b: int|
                #![trigger models[a], models[b]]
                0 <= a < b < j ==> models[a].key != models[b].key,
        decreases n - j,
    {
        let mut i: usize = 0;
        while i < j
            invariant
                i <= j < n,
                n == parameters.len(),
                models == parameter_models(parameters@),
                forall|a: int| 0 <= a < i ==> (#[trigger] models[a]).key != models[j as int].key,
            decreases j - i,
        {
            if parameters[i].key == parameters[j].key {
                assert(models[i as int].key == models[j as int].key);
                return true;
            }
            i = i + 1;
        }
        j = j + 1;
    }
    false
}

/// The definition of one external table: its name and database, where and
/// in what format its files are stored, its columns in schema order and its
/// parameters. Every value of this type meets the rules of [`is_valid`].
#[derive(Debug, PartialEq, Eq)]
pub struct TableDescriptor {
    name: String,
    database: String,
    storage_location: String,
    input_format: String,
    output_format: String,
    serialization_library: String,
    columns: Vec<ColumnDescriptor>,
    parameters: Vec<Parameter>,
}

impl View for TableDescriptor {
    type V = TableModel;

    closed spec fn view(&self) -> TableModel {
        TableModel {
            name: self.name@,
            database: self.database@,
            storage_location: self.storage_location@,
            input_format: self.input_format@,
            output_format: self.output_format@,
            serialization_library: self.serialization_library@,
            columns: column_models(self.columns@),
            parameters: parameter_models(self.parameters@),
        }
    }
}

impl TableDescriptor {
    /// What holds of every descriptor: it breaks no rule.
    #[verifier::type_invariant]
    pub open spec fn valid(self) -> bool {
        is_valid(self@)
    }

    /// Builds a descriptor, or says which rule the values break first.
    pub fn new(
        name: &str,
        database: &str,
        storage_location: &str,
        input_format: &str,
        output_format: &str,
        serialization_library: &str,
        columns: Vec<ColumnDescriptor>,
        parameters: Vec<Parameter>,
    ) -> (built: Result<TableDescriptor, ConstructionError>)
        ensures
            columns@.len() == 0 ==> built == Err::<TableDescriptor, ConstructionError>(
                ConstructionError::NoColumns,
            ),
            match violation(
                table_of(
                    name@,
                    database@,
                    storage_location@,
                    input_format@,
                    output_format@,
                    serialization_library@,
                    columns@,
                    parameters@,
                ),
            ) {
                Some(error) => built == Err::<TableDescriptor, ConstructionError>(error),
                None => built is Ok && built->Ok_0@ == table_of(
                    name@,
                    database@,
                    storage_location@,
                    input_format@,
                    output_format@,
                    serialization_library@,
                    columns@,
                    parameters@,
                ),
            },
    {
        if columns.len() == 0 {
            return Err(ConstructionError::NoColumns);
        }
        if repeated_name(&columns) {
            return Err(ConstructionError::DuplicateColumn);
        }
        if !object_uri(storage_location) {
            return Err(ConstructionError::InvalidLocation);
        }
        if repeated_key(&parameters) {
            return Err(ConstructionError::DuplicateParameter);
        }
        Ok(
            TableDescriptor::assemble(
                name,
                database,
                storage_location,
                input_format,
                output_format,
                serialization_library,
                columns,
                parameters,
            ),
        )
    }

    /// Builds a descriptor of values that are known to break no rule.
    pub(crate) fn assemble(
        name: &str,
        database: &str,
        storage_location: &str,
        input_format: &str,
        output_format: &str,
        serialization_library: &str,
        columns: Vec<ColumnDescriptor>,
        parameters: Vec<Parameter>,
    ) -> (table: TableDescriptor)
        requires
            is_valid(
                table_of(
                    name@,
                    database@,
                    storage_location@,
                    input_format@,
                    output_format@,
                    serialization_library@,
                    columns@,
                    parameters@,
                ),
            ),
        ensures
            table@ == table_of(
                name@,
                database@,
                storage_location@,
                input_format@,
                output_format@,
                serialization_library@,
                columns@,
                parameters@,
            ),
    {
        TableDescriptor {
            name: name.to_owned(),
            database: database.to_owned(),
            storage_location: storage_location.to_owned(),
            input_format: input_format.to_owned(),
            output_format: output_format.to_owned(),
            serialization_library: serialization_library.to_owned(),
            columns,
            parameters,
        }
    }

    /// The table's name.
    pub fn name(&self) -> (name: &str)
        ensures
            name@ == self@.name,
    {
        self.name.as_str()
    }

    /// The database that the table belongs to.
    pub fn database(&self) -> (database: &str)
        ensures
            database@ == self@.database,
    {
        self.database.as_str()
    }

    /// Where the table's files are stored.
    pub fn storage_location(&self) -> (location: &str)
        ensures
            location@ == self@.storage_location,
            is_object_uri(location@),
    {
        proof {
            use_type_invariant(self);
        }
        self.storage_location.as_str()
    }

    /// The identifier of the format in which the files are read.
    pub fn input_format(&self) -> (format: &str)
        ensures
            format@ == self@.input_format,
    {
        self.input_format.as_str()
    }

    /// The identifier of the format in which the files are written.
    pub fn output_format(&self) -> (format: &str)
        ensures
            format@ == self@.output_format,
    {
        self.output_format.as_str()
    }

    /// The identifier of the library that turns the files into rows.
    pub fn serialization_library(&self) -> (library: &str)
        ensures
            library@ == self@.serialization_library,
    {
        self.serialization_library.as_str()
    }

    /// The columns, in schema order: at least one, and no name twice.
    pub fn columns(&self) -> (columns: &Vec<ColumnDescriptor>)
        ensures
            column_models(columns@) == self@.columns,
            columns@.len() > 0,
            !has_repeated_name(self@.columns),
    {
        proof {
            use_type_invariant(self);
        }
        &self.columns
    }

    /// The parameters, in the order in which they were given: no key twice.
    pub fn parameters(&self) -> (parameters: &Vec<Parameter>)
        ensures
            parameter_models(parameters@) == self@.parameters,
            !has_repeated_key(self@.parameters),
    {
        proof {
            use_type_invariant(self);
        }
        &self.parameters
    }
}

} // verus!
