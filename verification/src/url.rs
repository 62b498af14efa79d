use vstd::prelude::*;

use crate::error::{Error, ErrorView};

verus! {

/// Where a loaded database lives.
#[derive(Debug, Clone, PartialEq, Eq)]
pub enum DatabaseTarget {
    /// A private in-memory database (`sqlite::memory:`).
    InMemory,
    /// A database file, by its path relative to the application's data directory.
    File(String),
}

/// The mathematical value of a [`DatabaseTarget`].
pub enum DatabaseTargetView {
    InMemory,
    File(Seq<char>),
}

impl View for DatabaseTarget {
    type V = DatabaseTargetView;

    open spec fn view(&self) -> DatabaseTargetView {
        match self {
            DatabaseTarget::InMemory => DatabaseTargetView::InMemory,
            DatabaseTarget::File(p) => DatabaseTargetView::File(p@),
        }
    }
}

/// `i` is the position of the first `:` in `s`.
pub open spec fn is_first_colon(s: Seq<char>, i: int) -> bool {
    &&& 0 <= i < s.len()
    &&& s[i] == ':'
    &&& forall|j: int| 0 <= j < i ==> s[j] != ':'
}

/// `s` split around its first `:`, or `None` where it holds none.
pub open spec fn split_at_first_colon(s: Seq<char>) -> Option<(Seq<char>, Seq<char>)> {
    if exists|i: int| is_first_colon(s, i) {
        let i = choose|i: int| is_first_colon(s, i);
        Some((s.take(i), s.skip(i + 1)))
    } else {
        None
    }
}

/// The driver name that the plugin accepts.
pub open spec fn sqlite_kind() -> Seq<char> {
    seq!['s', 'q', 'l', 'i', 't', 'e']
}

/// The path part that selects an in-memory database.
pub open spec fn memory_path() -> Seq<char> {
    seq![':', 'm', 'e', 'm', 'o', 'r', 'y', ':']
}

/// The target that a path part after `sqlite:` selects.
pub open spec fn target_of_path(path: Seq<char>) -> DatabaseTargetView {
    if path == memory_path() {
        DatabaseTargetView::InMemory
    } else {
        DatabaseTargetView::File(path)
    }
}

/// What loading the database URL `db` resolves to.
pub open spec fn database_url_meaning(db: Seq<char>) -> Result<DatabaseTargetView, ErrorView> {
    match split_at_first_colon(db) {
        None => Err(ErrorView::InvalidDatabaseUrl(db)),
        Some((kind, path)) => if kind != sqlite_kind() {
            Err(ErrorView::UnsupportedDatabaseType(kind))
        } else {
            Ok(target_of_path(path))
        },
    }
}

/// Appends one character to a string (`String::push`).
#[verifier::external_body]
fn push_char(s: &mut String, c: char)
    ensures
        final(s)@ == old(s)@.push(c),
{
    s.push(c);
}

/// Parses a database URL of the form `sqlite:<path>`, where the path
/// `:memory:` selects an in-memory database.
pub fn parse_database_url(db: &str) -> (result: Result<DatabaseTarget, Error>)
    ensures
        match (result, database_url_meaning(db@)) {
            (Ok(t), Ok(tv)) => t@ == tv,
            (Err(e), Err(ev)) => e@ == ev,
            _ => false,
        },
        db@.len() >= 7 && db@.take(7) == seq!['s', 'q', 'l', 'i', 't', 'e', ':'] ==> match result {
            Ok(DatabaseTarget::File(p)) => p@ == db@.skip(7) && db@.skip(7) != seq![
                ':',
                'm',
                'e',
                'm',
                'o',
                'r',
                'y',
                ':',
            ],
            Ok(DatabaseTarget::InMemory) => db@.skip(7) == seq![
                ':',
                'm',
                'e',
                'm',
                'o',
                'r',
                'y',
                ':',
            ],
            Err(_) => false,
        },
{
    let mut kind = String::new();
    let mut path = String::new();
    let mut found = false;
    let ghost mut colon: int = 0;
    for c in it: db.chars()
        invariant
            it.seq() == db@,
            !found ==> kind@ == db@.take(it.index()) && path@.len() == 0,
            !found ==> forall|j: int| 0 <= j < it.index() ==> db@[j] != ':',
            found ==> is_first_colon(db@, colon) && colon < it.index(),
            found ==> kind@ == db@.take(colon),
            found ==> path@ == db@.subrange(colon + 1, it.index()),
    {
        if found {
            push_char(&mut path, c);
        } else if c == ':' {
            found = true;
            proof { colon = it.index(); }
        } else {
            push_char(&mut kind, c);
        }
    }
    proof {
        if db@.len() >= 7 && db@.take(7) == seq!['s', 'q', 'l', 'i', 't', 'e', ':'] {
            assert(db@ =~= seq!['s', 'q', 'l', 'i', 't', 'e', ':'] + db@.skip(7));
            crate::laws::law_sqlite_url(db@.skip(7));
            assert(sqlite_kind() + seq![':'] + db@.skip(7) =~= db@);
        }
    }
    if !found {
        proof {
            assert(db@.take(db@.len() as int) =~= db@);
            assert(!exists|i: int| is_first_colon(db@, i));
        }
        return Err(Error::InvalidDatabaseUrl(db.to_string()));
    }
    proof {
        assert(path@ =~= db@.skip(colon + 1));
        assert forall|i: int| is_first_colon(db@, i) implies i == colon by {
            if i < colon {
                assert(db@[i] != ':');
            } else if i > colon {
                assert(db@[colon] != ':');
            }
        }
        assert(is_first_colon(db@, colon));
        assert(split_at_first_colon(db@) == Some((db@.take(colon), db@.skip(colon + 1))));
    }
    let sqlite = "sqlite".to_string();
    proof {
        reveal_strlit("sqlite");
        assert(sqlite@ == "sqlite"@);
        assert(sqlite@ =~= sqlite_kind());
    }
    if kind != sqlite {
        return Err(Error::UnsupportedDatabaseType(kind));
    }
    let memory = ":memory:".to_string();
    proof {
        reveal_strlit(":memory:");
        assert(memory@ =~= memory_path());
    }
    if path == memory {
        Ok(DatabaseTarget::InMemory)
    } else {
        Ok(DatabaseTarget::File(path))
    }
}

} // verus!
