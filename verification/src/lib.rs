//! Registration of one external table definition in a managed data catalog.
//!
//! A table descriptor names a table, its columns, its storage format and the
//! place where its files lie. The registrar turns a descriptor into one
//! create-table request, hands it out to be sent exactly once, and decides
//! from the catalog's reply whether to report success or to abort.

pub mod descriptor;
pub mod error;
pub mod events;
pub mod glue;
pub mod location;
pub mod registrar;
pub mod wire;
