use vstd::prelude::*;

use crate::error::ErrorView;
use crate::model::{
    apply_step, apply_steps, close_outcome, connection_lookup, statement_connection, step_touches,
    transaction_end, transaction_lookup, TransactionStep,
};
use crate::txid::uuid_parse;
use crate::url::{
    database_url_meaning, is_first_colon, memory_path, split_at_first_colon, sqlite_kind,
    target_of_path, DatabaseTargetView,
};

verus! {

/// A database loaded under an alias is what later lookups of that alias find,
/// and loading it leaves every other alias as it was.
pub proof fn law_loaded_database_is_found<C>(conns: Map<Seq<char>, C>, alias: Seq<char>, connection: C, other: Seq<char>)
    ensures
        connection_lookup(conns.insert(alias, connection), alias) == Ok::<C, ErrorView>(connection),
        other != alias ==> connection_lookup(conns.insert(alias, connection), other)
            == connection_lookup(conns, other),
{
}

/// Closing a loaded alias succeeds, after which the alias is no longer
/// loaded and every other alias is as it was; closing an alias that is not
/// loaded fails with `DatabaseNotLoaded` and changes nothing.
pub proof fn law_close_unloads<C>(conns: Map<Seq<char>, C>, alias: Seq<char>, other: Seq<char>)
    ensures
        conns.contains_key(alias) ==> close_outcome(conns, Some(alias)).1 == Ok::<bool, ErrorView>(true),
        connection_lookup(close_outcome(conns, Some(alias)).0, alias)
            == Err::<C, ErrorView>(ErrorView::DatabaseNotLoaded(alias)),
        other != alias ==> connection_lookup(close_outcome(conns, Some(alias)).0, other)
            == connection_lookup(conns, other),
        !conns.contains_key(alias) ==> close_outcome(conns, Some(alias)) == (
            conns,
            Err::<bool, ErrorView>(ErrorView::DatabaseNotLoaded(alias)),
        ),
{
}

/// Closing without an alias succeeds and unloads every database.
pub proof fn law_close_all_unloads_everything<C>(conns: Map<Seq<char>, C>, alias: Seq<char>)
    ensures
        close_outcome(conns, None).1 == Ok::<bool, ErrorView>(true),
        connection_lookup(close_outcome(conns, None).0, alias)
            == Err::<C, ErrorView>(ErrorView::DatabaseNotLoaded(alias)),
{
}

/// The identifier handed out for a transaction names it until it is ended:
/// statements given that identifier run on the transaction's connection,
/// whatever database they name; ending it hands that connection back; after
/// that the identifier names no transaction. `tx` is any text that reads as
/// the transaction's UUID: the one `begin` returns, or its upper-case, braced,
/// URN or simple form.
pub proof fn law_transaction_identifier_round_trip<C>(
    txs: Map<u128, C>,
    conns: Map<Seq<char>, C>,
    id: u128,
    tx: Seq<char>,
    connection: C,
    db: Seq<char>,
)
    requires
        uuid_parse(tx) == Some(id),
    ensures
        statement_connection(conns, txs.insert(id, connection), db, Some(tx)) == Ok::<
            C,
            ErrorView,
        >(connection),
        transaction_lookup(txs.insert(id, connection), tx) == Ok::<C, ErrorView>(connection),
        transaction_end(txs.insert(id, connection), tx) == txs.remove(id),
        transaction_lookup(transaction_end(txs.insert(id, connection), tx), tx) == Err::<
            C,
            ErrorView,
        >(ErrorView::TransactionNotFound(tx)),
{
}

/// A transaction stays open, on its connection, through any sequence of
/// other steps: begins under other UUIDs and ends of other transactions.
pub proof fn law_transaction_open_until_ended<C>(
    txs: Map<u128, C>,
    id: u128,
    connection: C,
    steps: Seq<TransactionStep<C>>,
)
    requires
        forall|i: int| 0 <= i < steps.len() ==> !step_touches(#[trigger] steps[i], id),
    ensures
        apply_steps(txs.insert(id, connection), steps).contains_key(id),
        apply_steps(txs.insert(id, connection), steps)[id] == connection,
    decreases steps.len(),
{
    if steps.len() > 0 {
        let rest = steps.drop_last();
        assert forall|i: int| 0 <= i < rest.len() implies !step_touches(#[trigger] rest[i], id) by {
            assert(rest[i] == steps[i]);
        }
        law_transaction_open_until_ended(txs, id, connection, rest);
        assert(!step_touches(steps[steps.len() - 1], id));
    }
}

/// The first step that ends a transaction ends it: after it, the
/// transaction's UUID names no open transaction.
pub proof fn law_transaction_ended_by_first_end<C>(
    txs: Map<u128, C>,
    id: u128,
    connection: C,
    steps: Seq<TransactionStep<C>>,
    tx: Seq<char>,
)
    requires
        forall|i: int| 0 <= i < steps.len() ==> !step_touches(#[trigger] steps[i], id),
        uuid_parse(tx) == Some(id),
    ensures
        apply_steps(txs.insert(id, connection), steps.push(TransactionStep::End(tx))) == apply_steps(
            txs.insert(id, connection),
            steps,
        ).remove(id),
        !apply_steps(txs.insert(id, connection), steps.push(TransactionStep::End(tx))).contains_key(
            id,
        ),
        transaction_lookup(
            apply_steps(txs.insert(id, connection), steps.push(TransactionStep::End(tx))),
            tx,
        ) == Err::<C, ErrorView>(ErrorView::TransactionNotFound(tx)),
{
    let all = steps.push(TransactionStep::End(tx));
    assert(all.drop_last() =~= steps);
    assert(all.last() == TransactionStep::<C>::End(tx));
}

/// Transactions begun under different UUIDs get different identifier texts.
pub proof fn law_distinct_transactions_distinct_identifiers(
    text1: Seq<char>,
    text2: Seq<char>,
    id1: u128,
    id2: u128,
)
    requires
        uuid_parse(text1) == Some(id1),
        uuid_parse(text2) == Some(id2),
        id1 != id2,
    ensures
        text1 != text2,
{
}

/// Without a transaction a statement runs on the database loaded under the
/// alias it names.
pub proof fn law_statement_without_transaction<C>(
    conns: Map<Seq<char>, C>,
    txs: Map<u128, C>,
    db: Seq<char>,
)
    ensures
        statement_connection(conns, txs, db, None) == connection_lookup(conns, db),
{
}

/// Closing databases does not end transactions: a statement in an open
/// transaction still finds its connection after any close.
pub proof fn law_close_keeps_transactions<C>(
    conns: Map<Seq<char>, C>,
    txs: Map<u128, C>,
    closed: Option<Seq<char>>,
    db: Seq<char>,
    tx: Seq<char>,
)
    ensures
        statement_connection(close_outcome(conns, closed).0, txs, db, Some(tx))
            == statement_connection(conns, txs, db, Some(tx)),
{
}

/// `sqlite:<path>` loads the in-memory database where the path is
/// `:memory:`, else the file at exactly that path: every character after
/// `sqlite:` belongs to the path, colons included.
pub proof fn law_sqlite_url(path: Seq<char>)
    ensures
        database_url_meaning(sqlite_kind() + seq![':'] + path) == Ok::<_, ErrorView>(
            target_of_path(path),
        ),
        path != seq![':', 'm', 'e', 'm', 'o', 'r', 'y', ':'] ==> database_url_meaning(
            seq!['s', 'q', 'l', 'i', 't', 'e', ':'] + path,
        ) == Ok::<_, ErrorView>(DatabaseTargetView::File(path)),
        database_url_meaning(
            seq!['s', 'q', 'l', 'i', 't', 'e', ':', ':', 'm', 'e', 'm', 'o', 'r', 'y', ':'],
        ) == Ok::<_, ErrorView>(DatabaseTargetView::InMemory),
{
    lemma_split_after_prefix(sqlite_kind(), path);
    assert(sqlite_kind() + seq![':'] + path =~= seq!['s', 'q', 'l', 'i', 't', 'e', ':'] + path);
    let mem = seq![':', 'm', 'e', 'm', 'o', 'r', 'y', ':'];
    lemma_split_after_prefix(sqlite_kind(), mem);
    assert(sqlite_kind() + seq![':'] + mem =~= seq![
        's',
        'q',
        'l',
        'i',
        't',
        'e',
        ':',
        ':',
        'm',
        'e',
        'm',
        'o',
        'r',
        'y',
        ':',
    ]);
    assert(mem =~= memory_path());
}

/// A URL whose part before the first `:` is not `sqlite` names an unsupported
/// driver, and a URL without `:` is invalid.
pub proof fn law_other_urls_fail(kind: Seq<char>, path: Seq<char>, db: Seq<char>)
    requires
        !kind.contains(':'),
    ensures
        kind != seq!['s', 'q', 'l', 'i', 't', 'e'] ==> database_url_meaning(kind + seq![':'] + path) == Err::<
            crate::url::DatabaseTargetView,
            _,
        >(ErrorView::UnsupportedDatabaseType(kind)),
        !db.contains(':') ==> database_url_meaning(db) == Err::<crate::url::DatabaseTargetView, _>(
            ErrorView::InvalidDatabaseUrl(db),
        ),
{
    lemma_split_after_prefix(kind, path);
    if !db.contains(':') {
        assert forall|i: int| !is_first_colon(db, i) by {
            if 0 <= i < db.len() && db[i] == ':' {
                assert(db.contains(':'));
            }
        }
    }
}

/// Splitting `kind:path`, where `kind` holds no `:`, gives back `kind` and `path`.
proof fn lemma_split_after_prefix(kind: Seq<char>, path: Seq<char>)
    requires
        !kind.contains(':'),
    ensures
        split_at_first_colon(kind + seq![':'] + path) == Some((kind, path)),
{
    let db = kind + seq![':'] + path;
    let k = kind.len() as int;
    assert forall|j: int| 0 <= j < k implies db[j] != ':' by {
        assert(db[j] == kind[j]);
        if kind[j] == ':' {
            assert(kind.contains(':'));
        }
    }
    assert(is_first_colon(db, k));
    assert forall|i: int| is_first_colon(db, i) implies i == k by {
        if i < k {
            assert(db[i] != ':');
        } else if i > k {
            assert(db[k] == ':');
        }
    }
    assert(db.take(k) =~= kind);
    assert(db.skip(k + 1) =~= path);
}

} // verus!
