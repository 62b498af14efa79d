use vstd::prelude::*;

verus! {

/// Errors reported by the plugin's commands.
#[derive(Debug, Clone, PartialEq, Eq)]
pub enum Error {
    /// The database URL has no `:` separating the driver from the path.
    InvalidDatabaseUrl(String),
    /// The database URL names a driver other than `sqlite`.
    UnsupportedDatabaseType(String),
    /// A file-system step of opening a database failed.
    Io(String),
    /// The database at the given path could not be opened; the second field
    /// is the driver's message.
    ConnectionFailed(String, String),
    /// No database is loaded under the given alias.
    DatabaseNotLoaded(String),
    /// The given transaction identifier is not a UUID.
    InvalidUuid(String),
    /// No open transaction has the given identifier.
    TransactionNotFound(String),
}

/// The mathematical value of an [`Error`]: each text taken as its characters.
pub enum ErrorView {
    InvalidDatabaseUrl(Seq<char>),
    UnsupportedDatabaseType(Seq<char>),
    Io(Seq<char>),
    ConnectionFailed(Seq<char>, Seq<char>),
    DatabaseNotLoaded(Seq<char>),
    InvalidUuid(Seq<char>),
    TransactionNotFound(Seq<char>),
}

impl View for Error {
    type V = ErrorView;

    open spec fn view(&self) -> ErrorView {
        match self {
            Error::InvalidDatabaseUrl(s) => ErrorView::InvalidDatabaseUrl(s@),
            Error::UnsupportedDatabaseType(s) => ErrorView::UnsupportedDatabaseType(s@),
            Error::Io(s) => ErrorView::Io(s@),
            Error::ConnectionFailed(p, m) => ErrorView::ConnectionFailed(p@, m@),
            Error::DatabaseNotLoaded(s) => ErrorView::DatabaseNotLoaded(s@),
            Error::InvalidUuid(s) => ErrorView::InvalidUuid(s@),
            Error::TransactionNotFound(s) => ErrorView::TransactionNotFound(s@),
        }
    }
}

} // verus!
