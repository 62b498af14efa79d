use vstd::prelude::*;

verus! {

/// Builder of the SQL plugin.
#[derive(Default)]
pub struct Builder {}

impl Builder {
    /// A builder with the default settings.
    pub fn new() -> (builder: Self)
        ensures
            builder == (Builder {}),
    {
        Builder {}
    }
}

/// The row id of the last row that a statement inserted.
#[derive(Debug, Clone, Copy, PartialEq, Eq)]
pub enum LastInsertId {
    Sqlite(i64),
}

/// What the `execute` command answers for a statement that changed `changes`
/// rows and after which the connection's last inserted row id is
/// `last_insert_rowid`.
pub fn execution_result(changes: usize, last_insert_rowid: i64) -> (result: (u64, LastInsertId))
    ensures
        result.0 == changes,
        result.1 == LastInsertId::Sqlite(last_insert_rowid),
{
    (changes as u64, LastInsertId::Sqlite(last_insert_rowid))
}

} // verus!
