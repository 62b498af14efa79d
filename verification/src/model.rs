use vstd::prelude::*;

use crate::error::ErrorView;
use crate::txid::uuid_parse;

verus! {

/// The connection loaded under `alias`, or the error that a command reports
/// when there is none.
pub open spec fn connection_lookup<C>(conns: Map<Seq<char>, C>, alias: Seq<char>) -> Result<C, ErrorView> {
    if conns.contains_key(alias) {
        Ok(conns[alias])
    } else {
        Err(ErrorView::DatabaseNotLoaded(alias))
    }
}

/// The loaded databases after closing `db` (every database where `db` is
/// `None`), and the answer of the `close` command.
pub open spec fn close_outcome<C>(conns: Map<Seq<char>, C>, db: Option<Seq<char>>) -> (Map<Seq<char>, C>, Result<bool, ErrorView>) {
    match db {
        Some(alias) => if conns.contains_key(alias) {
            (conns.remove(alias), Ok(true))
        } else {
            (conns, Err(ErrorView::DatabaseNotLoaded(alias)))
        },
        None => (Map::empty(), Ok(true)),
    }
}

/// The connection of the open transaction named by the text `tx`, or the
/// error that a command reports for that text.
pub open spec fn transaction_lookup<C>(txs: Map<u128, C>, tx: Seq<char>) -> Result<C, ErrorView> {
    match uuid_parse(tx) {
        None => Err(ErrorView::InvalidUuid(tx)),
        Some(id) => if txs.contains_key(id) {
            Ok(txs[id])
        } else {
            Err(ErrorView::TransactionNotFound(tx))
        },
    }
}

/// The open transactions after the one named by `tx` is ended (committed or
/// rolled back).
pub open spec fn transaction_end<C>(txs: Map<u128, C>, tx: Seq<char>) -> Map<u128, C> {
    match uuid_parse(tx) {
        Some(id) => txs.remove(id),
        None => txs,
    }
}

/// One change to the open transactions: a transaction begun under a UUID on
/// a connection, or the transaction named by a text ended.
pub enum TransactionStep<C> {
    Begin(u128, C),
    End(Seq<char>),
}

/// The open transactions after one step.
pub open spec fn apply_step<C>(txs: Map<u128, C>, step: TransactionStep<C>) -> Map<u128, C> {
    match step {
        TransactionStep::Begin(id, c) => txs.insert(id, c),
        TransactionStep::End(tx) => transaction_end(txs, tx),
    }
}

/// The open transactions after the steps in order.
pub open spec fn apply_steps<C>(txs: Map<u128, C>, steps: Seq<TransactionStep<C>>) -> Map<u128, C>
    decreases steps.len(),
{
    if steps.len() == 0 {
        txs
    } else {
        apply_step(apply_steps(txs, steps.drop_last()), steps.last())
    }
}

/// Whether a step concerns the transaction under `id`: begins another one
/// under the same UUID, or ends it.
pub open spec fn step_touches<C>(step: TransactionStep<C>, id: u128) -> bool {
    match step {
        TransactionStep::Begin(other, _) => other == id,
        TransactionStep::End(tx) => uuid_parse(tx) == Some(id),
    }
}

/// The connection that a statement on database `db` runs on: that of the
/// transaction `tx` where one is given, else the one loaded under `db`.
pub open spec fn statement_connection<C>(
    conns: Map<Seq<char>, C>,
    txs: Map<u128, C>,
    db: Seq<char>,
    tx: Option<Seq<char>>,
) -> Result<C, ErrorView> {
    match tx {
        Some(t) => transaction_lookup(txs, t),
        None => connection_lookup(conns, db),
    }
}

/// An executable answer agrees with its model: the same connection, or an
/// error whose view is the modelled one.
pub open spec fn answers<C>(r: Result<&C, crate::error::Error>, m: Result<C, ErrorView>) -> bool {
    match (r, m) {
        (Ok(c), Ok(d)) => *c == d,
        (Err(e), Err(ev)) => e@ == ev,
        _ => false,
    }
}

/// Like [`answers`], for an answer that hands the connection over.
pub open spec fn answers_owned<C>(r: Result<C, crate::error::Error>, m: Result<C, ErrorView>) -> bool {
    match (r, m) {
        (Ok(c), Ok(d)) => c == d,
        (Err(e), Err(ev)) => e@ == ev,
        _ => false,
    }
}

} // verus!
