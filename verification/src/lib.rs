//! Connection and transaction bookkeeping for a SQLite plugin: parsing of
//! database URLs, the registry of loaded databases, the registry of open
//! transactions and the identifiers handed out for them.

mod connections;
mod error;
pub mod laws;
pub mod model;
mod plugin;
mod transactions;
pub mod txid;
pub mod url;

pub use connections::ConnectionManager;
pub use error::{Error, ErrorView};
pub use plugin::{execution_result, Builder, LastInsertId};
pub use transactions::{end_answer, statement_target, TransactionEnd, TransactionManager};
pub use url::{parse_database_url, DatabaseTarget, DatabaseTargetView};
