use std::collections::HashMap;
use vstd::prelude::*;

use crate::connections::ConnectionManager;
use crate::error::{Error, ErrorView};
use crate::model::{answers, answers_owned, statement_connection, transaction_end, transaction_lookup};
use crate::txid::{
    format_transaction_id, hyphenated, is_random_uuid, new_transaction_id, parse_transaction_id,
    is_uuid_text_length, reads_in_every_form, uuid_parse,
};

verus! {

broadcast use vstd::std_specs::hash::group_hash_axioms;

/// The open transactions, each under its UUID (as a 128-bit value), with the
/// connection it runs on.
#[verifier::reject_recursive_types(C)]
pub struct TransactionManager<C> {
    transactions: HashMap<u128, C>,
}

impl<C> View for TransactionManager<C> {
    type V = Map<u128, C>;

    closed spec fn view(&self) -> Map<u128, C> {
        self.transactions@
    }
}

impl<C> TransactionManager<C> {
    /// A manager with no transaction open.
    pub fn new() -> (result: Self)
        ensures
            result@ == Map::<u128, C>::empty(),
            result@.dom().finite(),
    {
        TransactionManager { transactions: HashMap::new() }
    }

    /// The number of open transactions.
    pub fn len(&self) -> (result: usize)
        ensures
            result == self@.len(),
    {
        self.transactions.len()
    }

    /// Records a transaction that has begun on `connection` under a fresh
    /// random UUID, and returns that UUID in its hyphenated form.
    pub fn begin(&mut self, connection: C) -> (tx_id: String)
        ensures
            exists|id: u128|
                #![trigger hyphenated(id)]
                {
                    &&& is_random_uuid(id)
                    &&& tx_id@ == hyphenated(id)
                    &&& uuid_parse(tx_id@) == Some(id)
                    &&& reads_in_every_form(tx_id@, id)
                    &&& final(self)@ == old(self)@.insert(id, connection)
                },
            transaction_lookup(final(self)@, tx_id@) == Ok::<C, ErrorView>(connection),
            final(self)@.dom().finite(),
    {
        let id = new_transaction_id();
        self.begin_with_id(id, connection)
    }

    /// Completes beginning a transaction on `connection` once its `BEGIN`
    /// statement has run: where it succeeded, the transaction is recorded as
    /// by [`Self::begin`] and its identifier returned; where it failed, the
    /// failure is passed on and nothing is recorded.
    pub fn begin_after<E>(&mut self, connection: C, begun: Result<(), E>) -> (result: Result<String, E>)
        ensures
            match begun {
                Ok(()) => {
                    &&& result matches Ok(tx_id) && exists|id: u128|
                        #![trigger hyphenated(id)]
                        {
                            &&& is_random_uuid(id)
                            &&& tx_id@ == hyphenated(id)
                            &&& uuid_parse(tx_id@) == Some(id)
                            &&& reads_in_every_form(tx_id@, id)
                            &&& final(self)@ == old(self)@.insert(id, connection)
                        }
                    &&& result matches Ok(tx_id) && transaction_lookup(final(self)@, tx_id@)
                        == Ok::<C, ErrorView>(connection)
                },
                Err(e) => {
                    &&& result == Err::<String, E>(e)
                    &&& final(self)@ == old(self)@
                },
            },
            final(self)@.dom().finite(),
    {
        match begun {
            Ok(()) => Ok(self.begin(connection)),
            Err(e) => Err(e),
        }
    }

    /// Records a transaction that has begun on `connection` under the UUID
    /// `id`, replacing any open under it, and returns `id` in its hyphenated
    /// form.
    pub fn begin_with_id(&mut self, id: u128, connection: C) -> (tx_id: String)
        ensures
            tx_id@ == hyphenated(id),
            uuid_parse(tx_id@) == Some(id),
            reads_in_every_form(tx_id@, id),
            final(self)@ == old(self)@.insert(id, connection),
            transaction_lookup(final(self)@, tx_id@) == Ok::<C, ErrorView>(connection),
            final(self)@.dom().finite(),
    {
        self.transactions.insert(id, connection);
        format_transaction_id(id)
    }

    /// The connection of the open transaction named by `tx_id`.
    pub fn transaction(&self, tx_id: &str) -> (result: Result<&C, Error>)
        ensures
            answers(result, transaction_lookup(self@, tx_id@)),
            !is_uuid_text_length(tx_id@.len()) ==> (result matches Err(e) && e@
                == ErrorView::InvalidUuid(tx_id@)),
    {
        match parse_transaction_id(tx_id) {
            None => Err(Error::InvalidUuid(tx_id.to_string())),
            Some(id) => match self.transactions.get(&id) {
                Some(c) => Ok(c),
                None => Err(Error::TransactionNotFound(tx_id.to_string())),
            },
        }
    }

    /// Ends the transaction named by `tx_id`: it is no longer open, and its
    /// connection is handed back so that the caller can commit or roll back.
    pub fn end(&mut self, tx_id: &str) -> (result: Result<C, Error>)
        ensures
            answers_owned(result, transaction_lookup(old(self)@, tx_id@)),
            final(self)@ == transaction_end(old(self)@, tx_id@),
            final(self)@.dom().finite(),
            !is_uuid_text_length(tx_id@.len()) ==> (result matches Err(e) && e@
                == ErrorView::InvalidUuid(tx_id@)) && final(self)@ == old(self)@,
    {
        match parse_transaction_id(tx_id) {
            None => Err(Error::InvalidUuid(tx_id.to_string())),
            Some(id) => match self.transactions.remove(&id) {
                Some(c) => Ok(c),
                None => Err(Error::TransactionNotFound(tx_id.to_string())),
            },
        }
    }
}

/// How a transaction is ended.
#[derive(Debug, Clone, Copy, PartialEq, Eq)]
pub enum TransactionEnd {
    Commit,
    Rollback,
}

/// What the command that ends a transaction answers, given what its `COMMIT`
/// or `ROLLBACK` statement gave: a failed commit is reported, while a rollback
/// is answered `Ok` whatever came of it, since the transaction has ended
/// either way.
pub fn end_answer<E>(how: TransactionEnd, statement: Result<(), E>) -> (answer: Result<(), E>)
    ensures
        match how {
            TransactionEnd::Commit => answer == statement,
            TransactionEnd::Rollback => answer == Ok::<(), E>(()),
        },
{
    match how {
        TransactionEnd::Commit => statement,
        TransactionEnd::Rollback => Ok(()),
    }
}

/// The connection that a statement on database `db` runs on: that of the
/// transaction `tx_id` where one is given, else the one loaded under `db`.
pub fn statement_target<'a, C>(
    connections: &'a ConnectionManager<C>,
    transactions: &'a TransactionManager<C>,
    db: &str,
    tx_id: Option<&str>,
) -> (result: Result<&'a C, Error>)
    ensures
        answers(
            result,
            statement_connection(
                connections@,
                transactions@,
                db@,
                match tx_id {
                    Some(t) => Some(t@),
                    None => None,
                },
            ),
        ),
{
    match tx_id {
        Some(t) => transactions.transaction(t),
        None => connections.connection(db),
    }
}

} // verus!
