//! Reading an index's rows from the database.

use crate::types::{ColumnName, Key, TableName};
use vstd::prelude::*;

verus! {

/// How many requests can wait for the database.
pub const CHANNEL_SIZE: usize = 10;

/// Which table and columns an index covers.
#[derive(Debug)]
pub struct IndexMetadata {
    pub table_name: TableName,
    pub key_name: ColumnName,
    pub target_name: ColumnName,
}

/// The vector of a row.
#[derive(Debug)]
pub struct Embeddings<T>(pub Vec<T>);

/// A request for rows. `K` and `I` are the handles through which keys and items
/// are handed back.
#[derive(Debug)]
#[allow(inconsistent_fields)]
pub enum DbIndex<K, I> {
    GetProcessedIds { tx: K },
    GetItems { tx: I },
}

/// What is left to do for a request: execute a statement and hand its rows
/// back.
#[derive(Debug)]
#[allow(inconsistent_fields)]
pub enum DbStep<'a, S, K, I> {
    FetchProcessedIds { statement: &'a S, tx: K },
    FetchItems { statement: &'a S, tx: I },
}

/// The statements of an index, as text or prepared.
#[derive(Debug)]
pub struct Statements<S> {
    pub st_get_processed_ids: S,
    pub st_get_items: S,
}

/// The keys of rows that an index has already taken in.
pub open spec fn processed_ids_query(table: Seq<char>, col_id: Seq<char>) -> Seq<char> {
    "\n            SELECT "@ + col_id + "\n            FROM "@ + table
        + "\n            WHERE processed = TRUE\n            LIMIT 1000\n            "@
}

/// The keys and vectors of rows that an index has not taken in yet.
pub open spec fn items_query(
    table: Seq<char>,
    col_id: Seq<char>,
    col_emb: Seq<char>,
) -> Seq<char> {
    "\n            SELECT "@ + col_id + ", "@ + col_emb + "\n            FROM "@ + table
        + "\n            WHERE processed = FALSE\n            "@
}

impl Statements<String> {
    /// The statements for an index, as text.
    pub fn new(metadata: &IndexMetadata) -> (statements: Self)
        ensures
            statements.st_get_processed_ids@ == processed_ids_query(
                metadata.table_name.0@,
                metadata.key_name.0@,
            ),
            statements.st_get_items@ == items_query(
                metadata.table_name.0@,
                metadata.key_name.0@,
                metadata.target_name.0@,
            ),
            statements.st_get_processed_ids@ == "\n            SELECT "@ + metadata.key_name.0@ + "\n            FROM "@ + metadata.table_name.0@
                + "\n            WHERE processed = TRUE\n            LIMIT 1000\n            "@,
            statements.st_get_items@ == "\n            SELECT "@ + metadata.key_name.0@ + ", "@ + metadata.target_name.0@ + "\n            FROM "@ + metadata.table_name.0@
                + "\n            WHERE processed = FALSE\n            "@,
    {
        Statements {
            st_get_processed_ids: Self::get_processed_ids_query(
                &metadata.table_name,
                &metadata.key_name,
            ),
            st_get_items: Self::get_items_query(
                &metadata.table_name,
                &metadata.key_name,
                &metadata.target_name,
            ),
        }
    }

    /// Selects at most a thousand keys of rows that were taken in.
    pub fn get_processed_ids_query(table: &TableName, col_id: &ColumnName) -> (query: String)
        ensures
            query@ == processed_ids_query(table.0@, col_id.0@),
            query@ == "\n            SELECT "@ + col_id.0@ + "\n            FROM "@ + table.0@
                + "\n            WHERE processed = TRUE\n            LIMIT 1000\n            "@,
    {
        let mut query = "\n            SELECT ".to_string();
        query.append(col_id.0.as_str());
        query.append("\n            FROM ");
        query.append(table.0.as_str());
        query.append("\n            WHERE processed = TRUE\n            LIMIT 1000\n            ");
        query
    }

    /// Selects the key and the vector of every row that was not taken in.
    pub fn get_items_query(table: &TableName, col_id: &ColumnName, col_emb: &ColumnName) -> (query:
        String)
        ensures
            query@ == items_query(table.0@, col_id.0@, col_emb.0@),
            query@ == "\n            SELECT "@ + col_id.0@ + ", "@ + col_emb.0@ + "\n            FROM "@ + table.0@
                + "\n            WHERE processed = FALSE\n            "@,
    {
        let mut query = "\n            SELECT ".to_string();
        query.append(col_id.0.as_str());
        query.append(", ");
        query.append(col_emb.0.as_str());
        query.append("\n            FROM ");
        query.append(table.0.as_str());
        query.append("\n            WHERE processed = FALSE\n            ");
        query
    }
}

impl<S> Statements<S> {
    /// Picks the statement that a request is served with.
    pub fn process<K, I>(&self, msg: DbIndex<K, I>) -> (step: DbStep<'_, S, K, I>)
        ensures
            step == match msg {
                DbIndex::GetProcessedIds { tx } => DbStep::FetchProcessedIds {
                    statement: &self.st_get_processed_ids,
                    tx,
                },
                DbIndex::GetItems { tx } => DbStep::FetchItems {
                    statement: &self.st_get_items,
                    tx,
                },
            },
    {
        match msg {
            DbIndex::GetProcessedIds { tx } => DbStep::FetchProcessedIds {
                statement: &self.st_get_processed_ids,
                tx,
            },
            DbIndex::GetItems { tx } => DbStep::FetchItems { statement: &self.st_get_items, tx },
        }
    }
}

/// The key that a column value stands for: the same 64 bits without a sign.
pub open spec fn key_of(value: i64) -> int {
    if value >= 0 {
        value as int
    } else {
        value + 0x1_0000_0000_0000_0000
    }
}

/// The key that a column value stands for.
pub fn key_from_column(value: i64) -> (key: Key)
    ensures
        key.0 == key_of(value),
        value >= 0 ==> key.0 == value,
        value < 0 ==> key.0 == value + 0x1_0000_0000_0000_0000,
{
    proof {
        assert(value >= 0 ==> value as u64 == value) by (bit_vector);
        assert(value < 0 ==> value as u64 == value + 0x1_0000_0000_0000_0000) by (bit_vector);
    }
    Key(value as u64)
}

/// A row's key and vector.
pub fn item_from_row<T>(row: (i64, Vec<T>)) -> (item: (Key, Embeddings<T>))
    ensures
        (item.0).0 == key_of(row.0),
        row.0 >= 0 ==> (item.0).0 == row.0,
        row.0 < 0 ==> (item.0).0 == row.0 + 0x1_0000_0000_0000_0000,
        (item.1).0 == row.1,
{
    (key_from_column(row.0), Embeddings(row.1))
}

/// Different column values stand for different keys.
pub proof fn law_keys_are_distinct(a: i64, b: i64)
    requires
        key_of(a) == key_of(b),
    ensures
        a == b,
{
}

/// A key is a number of 64 bits without a sign that differs from its column value
/// by a multiple of what 64 bits can count.
pub proof fn law_a_key_is_the_value_without_its_sign(value: i64)
    ensures
        0 <= key_of(value) <= u64::MAX,
        (key_of(value) - value) % 0x1_0000_0000_0000_0000 == 0,
{
}

/// Both statements select the key first and end with the table of the index and
/// the rows that they are for: one asks for rows that were taken in, the other for
/// rows that were not.
pub proof fn law_the_statements_read_the_table_of_the_index(
    table: Seq<char>,
    col_id: Seq<char>,
    col_emb: Seq<char>,
)
    ensures
        processed_ids_query(table, col_id).subrange(
            0,
            ("\n            SELECT "@ + col_id).len() as int,
        ) == "\n            SELECT "@ + col_id,
        items_query(table, col_id, col_emb).subrange(
            0,
            ("\n            SELECT "@ + col_id + ", "@ + col_emb).len() as int,
        ) == "\n            SELECT "@ + col_id + ", "@ + col_emb,
        ("\n            FROM "@ + table
            + "\n            WHERE processed = TRUE\n            LIMIT 1000\n            "@).is_suffix_of(
            processed_ids_query(table, col_id),
        ),
        ("\n            FROM "@ + table
            + "\n            WHERE processed = FALSE\n            "@).is_suffix_of(
            items_query(table, col_id, col_emb),
        ),
{
    let ids = processed_ids_query(table, col_id);
    let ids_head = "\n            SELECT "@ + col_id;
    let ids_tail = "\n            FROM "@ + table
        + "\n            WHERE processed = TRUE\n            LIMIT 1000\n            "@;
    assert(ids =~= ids_head + ids_tail);
    assert(ids.subrange(0, ids_head.len() as int) =~= ids_head);
    assert(ids.subrange(ids.len() - ids_tail.len(), ids.len() as int) =~= ids_tail);
    let items = items_query(table, col_id, col_emb);
    let items_head = "\n            SELECT "@ + col_id + ", "@ + col_emb;
    let items_tail = "\n            FROM "@ + table
        + "\n            WHERE processed = FALSE\n            "@;
    assert(items =~= items_head + items_tail);
    assert(items.subrange(0, items_head.len() as int) =~= items_head);
    assert(items.subrange(items.len() - items_tail.len(), items.len() as int) =~= items_tail);
}

} // verus!
