use vstd::hash_map::StringHashMap;
use vstd::prelude::*;

use crate::error::Error;
use crate::model::{answers, close_outcome, connection_lookup};

verus! {

/// The databases that are loaded, each under the alias it was loaded with.
/// `C` is the handle through which a database is reached.
#[verifier::reject_recursive_types(C)]
pub struct ConnectionManager<C> {
    connections: StringHashMap<C>,
}

impl<C> View for ConnectionManager<C> {
    type V = Map<Seq<char>, C>;

    closed spec fn view(&self) -> Map<Seq<char>, C> {
        self.connections@
    }
}

impl<C> ConnectionManager<C> {
    /// Only finitely many databases are ever loaded.
    #[verifier::type_invariant]
    spec fn loaded_finitely(self) -> bool {
        self.connections@.dom().finite()
    }

    /// A manager with no database loaded.
    pub fn new() -> (result: Self)
        ensures
            result@ == Map::<Seq<char>, C>::empty(),
            result@.dom().finite(),
    {
        ConnectionManager { connections: StringHashMap::new() }
    }

    /// Records `connection` under `alias`, replacing any connection loaded
    /// under it before; says whether one was replaced.
    pub fn register(&mut self, alias: String, connection: C) -> (replaced: bool)
        ensures
            final(self)@ == old(self)@.insert(alias@, connection),
            final(self)@.dom().finite(),
            final(self)@.len() == old(self)@.len() + if replaced { 0int } else { 1int },
            replaced == old(self)@.contains_key(alias@),
    {
        proof {
            use_type_invariant(&*self);
        }
        let replaced = self.connections.contains_key(alias.as_str());
        let mut connections = StringHashMap::new();
        std::mem::swap(&mut connections, &mut self.connections);
        connections.insert(alias, connection);
        self.connections = connections;
        proof {
            use_type_invariant(&*self);
        }
        replaced
    }

    /// Completes loading the database URL `db` once the database it names has
    /// been opened (or has failed to open): an opened connection is recorded
    /// under the URL itself, which is returned as the alias; a failure is
    /// passed on and changes nothing.
    pub fn load(&mut self, db: String, opened: Result<C, Error>) -> (result: Result<String, Error>)
        ensures
            match opened {
                Ok(c) => {
                    &&& result matches Ok(alias) && alias@ == db@
                    &&& final(self)@ == old(self)@.insert(db@, c)
                    &&& final(self)@.len() == old(self)@.len() + if old(self)@.contains_key(
                        db@,
                    ) {
                        0int
                    } else {
                        1int
                    }
                },
                Err(e) => {
                    &&& result == Err::<String, Error>(e)
                    &&& final(self)@ == old(self)@
                },
            },
            final(self)@.dom().finite(),
    {
        proof {
            use_type_invariant(&*self);
        }
        match opened {
            Ok(c) => {
                let alias = db.clone();
                self.register(db, c);
                Ok(alias)
            },
            Err(e) => Err(e),
        }
    }

    /// Whether a database is loaded under `alias`.
    pub fn contains(&self, alias: &str) -> (result: bool)
        ensures
            result == self@.contains_key(alias@),
    {
        self.connections.contains_key(alias)
    }

    /// The number of loaded databases.
    pub fn len(&self) -> (result: usize)
        ensures
            result == self@.len(),
    {
        self.connections.len()
    }

    /// The connection loaded under `alias`.
    pub fn connection(&self, alias: &str) -> (result: Result<&C, Error>)
        ensures
            answers(result, connection_lookup(self@, alias@)),
    {
        match self.connections.get(alias) {
            Some(c) => Ok(c),
            None => Err(Error::DatabaseNotLoaded(alias.to_string())),
        }
    }

    /// Closes the database loaded under `db`, or every loaded database where
    /// `db` is `None`. Closing an alias that is not loaded is an error and
    /// changes nothing.
    pub fn close(&mut self, db: Option<String>) -> (result: Result<bool, Error>)
        ensures
            ({
                let (conns, answer) = close_outcome(old(self)@, match db {
                    Some(a) => Some(a@),
                    None => None,
                });
                &&& final(self)@ == conns
                &&& final(self)@.dom().finite()
                &&& match (result, answer) {
                    (Ok(b), Ok(c)) => b == c,
                    (Err(e), Err(ev)) => e@ == ev,
                    _ => false,
                }
            }),
    {
        proof {
            use_type_invariant(&*self);
        }
        match db {
            Some(alias) => {
                if !self.connections.contains_key(alias.as_str()) {
                    return Err(Error::DatabaseNotLoaded(alias));
                }
                let mut connections = StringHashMap::new();
                std::mem::swap(&mut connections, &mut self.connections);
                connections.remove(alias.as_str());
                self.connections = connections;
                proof {
                    use_type_invariant(&*self);
                }
                Ok(true)
            },
            None => {
                self.connections = StringHashMap::new();
                proof {
                    use_type_invariant(&*self);
                }
                Ok(true)
            },
        }
    }
}

} // verus!
