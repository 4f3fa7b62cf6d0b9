use vstd::prelude::*;

use rusqlite::OptionalExtension;

use crate::card::CardID;
use crate::card::EdgeKind;
use crate::card::IncID;
use crate::card::PendingCard;
use crate::card::TopicID;
use crate::errors::StorageError;

verus! {

/// The SQLite connection every lookup and write goes through. A value of
/// it is opaque here: what it holds lives on disk, outside any proof.
#[verifier::external_type_specification]
#[verifier::external_body]
pub struct ExConnection(rusqlite::Connection);

/// The error type rusqlite's calls return.
#[verifier::external_type_specification]
#[verifier::external_body]
pub struct ExRusqliteError(rusqlite::Error);

/// Relies on `rusqlite::Connection::execute_batch`: creates the tables the
/// workflow reads and writes, where they are missing.
#[verifier::external_body]
pub fn setup_schema(conn: &rusqlite::Connection) -> (r: Result<(), rusqlite::Error>) {
    conn.execute_batch(
        "CREATE TABLE IF NOT EXISTS topics (id INTEGER PRIMARY KEY, name TEXT);
         CREATE TABLE IF NOT EXISTS incread (id INTEGER PRIMARY KEY, title TEXT, topic INTEGER);
         CREATE TABLE IF NOT EXISTS cards (id INTEGER PRIMARY KEY AUTOINCREMENT, question TEXT, answer TEXT, topic INTEGER, source INTEGER, finished INTEGER);
         CREATE TABLE IF NOT EXISTS edges (card INTEGER, dependency INTEGER, target INTEGER);",
    )
}

/// Relies on `rusqlite::Connection::query_row` with `optional`: the question
/// of the card with this id, or `None` when there is no such row or the
/// read itself fails.
#[verifier::external_body]
pub(crate) fn fetch_card_question(conn: &rusqlite::Connection, id: CardID) -> (r: Option<
    String,
>) {
    conn.query_row("SELECT question FROM cards WHERE id = ?1", (id as i64,), |row| row.get(0))
        .optional()
        .unwrap_or(None)
}

/// Relies on `rusqlite::Connection::query_row` with `optional`: the topic of
/// the card with this id, or `None` when there is no such row or the read
/// itself fails.
#[verifier::external_body]
pub(crate) fn get_topic_of_card(conn: &rusqlite::Connection, id: CardID) -> (r: Option<
    TopicID,
>) {
    conn.query_row("SELECT topic FROM cards WHERE id = ?1", (id as i64,), |row| row.get::<_, i64>(0))
        .optional()
        .unwrap_or(None)
        .map(|t| t as u64)
}

/// Relies on `rusqlite::Connection::query_row` with `optional`: the topic of
/// the source reading item with this id, or `None` when there is no such
/// row or the read itself fails.
#[verifier::external_body]
pub(crate) fn get_topic_of_inc(conn: &rusqlite::Connection, id: IncID) -> (r: Option<
    TopicID,
>) {
    conn.query_row("SELECT topic FROM incread WHERE id = ?1", (id as i64,), |row| row.get::<_, i64>(0))
        .optional()
        .unwrap_or(None)
        .map(|t| t as u64)
}

/// Relies on `rusqlite::Connection::query_row` with `optional` and SQLite's
/// `substr`: the title of the source reading item with this id, cut to at
/// most `maxlen` characters, or `None` when there is no such row or the
/// read itself fails.
#[verifier::external_body]
pub(crate) fn load_inc_title(conn: &rusqlite::Connection, id: IncID, maxlen: u64) -> (r: Option<
    String,
>) {
    conn.query_row(
        "SELECT substr(title, 1, ?2) FROM incread WHERE id = ?1",
        (id as i64, maxlen as i64),
        |row| row.get(0),
    ).optional().unwrap_or(None)
}

/// Relies on `rusqlite::Connection::prepare` and `Statement::query_map`: the
/// ids of all topics, in ascending order; empty when the read fails.
#[verifier::external_body]
pub(crate) fn load_topic_ids(conn: &rusqlite::Connection) -> (r: Vec<TopicID>) {
    let run = || -> rusqlite::Result<Vec<u64>> {
        let mut stmt = conn.prepare("SELECT id FROM topics ORDER BY id")?;
        let rows = stmt.query_map([], |row| row.get::<_, i64>(0).map(|t| t as u64))?;
        rows.collect()
    };
    run().unwrap_or_default()
}

/// Relies on `rusqlite::Connection::execute_batch`: opens a transaction.
#[verifier::external_body]
fn begin_tx(conn: &rusqlite::Connection) -> (r: Result<(), rusqlite::Error>) {
    conn.execute_batch("BEGIN")
}

/// Relies on `rusqlite::Connection::execute_batch`: commits the open
/// transaction, making everything written inside it visible at once.
#[verifier::external_body]
fn commit_tx(conn: &rusqlite::Connection) -> (r: Result<(), rusqlite::Error>) {
    conn.execute_batch("COMMIT")
}

/// Relies on `rusqlite::Connection::execute_batch`: rolls the open
/// transaction back, discarding everything written inside it.
#[verifier::external_body]
fn rollback_tx(conn: &rusqlite::Connection) -> (r: Result<(), rusqlite::Error>) {
    conn.execute_batch("ROLLBACK")
}

/// Relies on `rusqlite::Connection::query_row` and SQLite's `RETURNING`:
/// inserts the card row and returns the id SQLite assigned to it.
#[verifier::external_body]
fn insert_card_row(
    conn: &rusqlite::Connection,
    question: &str,
    answer: &str,
    topic: TopicID,
    source: Option<IncID>,
    finished: bool,
) -> (r: Result<CardID, rusqlite::Error>) {
    conn.query_row(
        "INSERT INTO cards (question, answer, topic, source, finished) VALUES (?1, ?2, ?3, ?4, ?5) RETURNING id",
        (question, answer, topic as i64, source.map(|s| s as i64), finished),
        |row| row.get::<_, i64>(0).map(|t| t as u64),
    )
}

/// Relies on `rusqlite::Connection::execute`: inserts one edge row for the
/// given card.
#[verifier::external_body]
fn insert_edge_row(
    conn: &rusqlite::Connection,
    card: CardID,
    dependency: bool,
    target: CardID,
) -> (r: Result<(), rusqlite::Error>) {
    conn.execute(
        "INSERT INTO edges (card, dependency, target) VALUES (?1, ?2, ?3)",
        (card as i64, dependency, target as i64),
    ).map(|_| ())
}

/// Writes the pending card and all of its edges as one transaction: to any
/// reader they appear together or not at all. Whether the write succeeds is
/// the store's to decide; on any failure the transaction is rolled back,
/// and the one error this function ever reports is `WriteFailed`.
pub fn write_pending(conn: &rusqlite::Connection, card: &PendingCard) -> (r: Result<
    (),
    StorageError,
>)
    requires
        card.wf(),
    ensures
        r matches Err(e) ==> e == StorageError::WriteFailed,
{
    if begin_tx(conn).is_err() {
        return Err(StorageError::WriteFailed);
    }
    let cid = match insert_card_row(
        conn,
        card.question.as_str(),
        card.answer.as_str(),
        card.topic,
        card.source,
        matches!(card.cardtype, crate::card::CardType::Finished),
    ) {
        Ok(id) => id,
        Err(_) => {
            let _ = rollback_tx(conn);
            return Err(StorageError::WriteFailed);
        },
    };
    let mut i: usize = 0;
    while i < card.edges.len()
        invariant
            i <= card.edges@.len(),
        decreases card.edges@.len() - i,
    {
        let e = card.edges[i];
        let dependency = matches!(e.kind, EdgeKind::Dependency);
        if insert_edge_row(conn, cid, dependency, e.target).is_err() {
            let _ = rollback_tx(conn);
            return Err(StorageError::WriteFailed);
        }
        i = i + 1;
    }
    match commit_tx(conn) {
        Ok(_) => Ok(()),
        Err(_) => {
            let _ = rollback_tx(conn);
            Err(StorageError::WriteFailed)
        },
    }
}

} // verus!
