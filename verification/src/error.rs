//! The ways in which a registration can fail.

use vstd::prelude::*;

verus! {

/// Why a table descriptor, or something read back into one, was turned down
/// before any request left the process.
#[derive(Clone, Copy, Debug, PartialEq, Eq)]
pub enum ConstructionError {
    /// The descriptor lists no column.
    NoColumns,
    /// Two columns of the descriptor bear the same name.
    DuplicateColumn,
    /// The storage location is no object-storage URI.
    InvalidLocation,
    /// Two parameters of the descriptor bear the same key.
    DuplicateParameter,
    /// A column of a request does not say, in the expected form, whether it is nullable.
    MalformedColumn,
    /// The catalog client's own builders turned the value down.
    Rejected,
}

/// What the catalog service, or the way to it, answered instead of creating the table.
#[derive(Clone, Copy, Debug, PartialEq, Eq)]
pub enum ServiceFailure {
    /// A table of that name exists already.
    Conflict,
    /// The caller may not create tables in that database.
    PermissionDenied,
    /// The service found the request malformed.
    ValidationFailure,
    /// The request did not reach the service, or what came back was none of the above.
    TransportFailure,
}

} // verus!
