//! Full-text search: the statements that set it up and query it, and what is
//! read from the rows that come back.

use crate::text;
use crate::types::{IndexName, KeyspaceName, TableName};
use std::collections::HashMap;
use vstd::prelude::*;

verus! {

broadcast use vstd::std_specs::hash::group_hash_axioms;

/// How many documents a search returns where nothing else is asked for.
pub const DEFAULT_LIMIT: usize = 100;

/// The part that a search by relevance ends with: which documents match, in
/// which order, and how many of them are wanted.
pub open spec fn ranking_clause(query: Seq<char>, limit: nat) -> Seq<char> {
    " WHERE BM25(content, '"@ + query + "') > 0 ORDER BY BM25(content, '"@ + query + "') LIMIT "@
        + text::decimal(limit)
}

/// The part that names the rows: from which table, which of its documents, in
/// which order, and how many of them.
pub open spec fn selection(table: Seq<char>, query: Seq<char>, limit: nat) -> Seq<char> {
    " FROM "@ + table + ranking_clause(query, limit)
}

/// The statement that searches by relevance.
pub open spec fn bm25_query(table: Seq<char>, query: Seq<char>, limit: nat) -> Seq<char> {
    "SELECT pk"@ + selection(table, query, limit)
}

/// The statement that searches by relevance and highlights what matched.
pub open spec fn highlight_query(table: Seq<char>, query: Seq<char>, limit: nat) -> Seq<char> {
    "SELECT pk, HIGHLIGHT(content, '"@ + query + "') AS excerpt"@ + selection(table, query, limit)
}

/// Asking for highlights changes neither the table, nor which documents match,
/// nor their order, nor how many are wanted: the two statements are the same
/// from ` FROM ` on.
pub proof fn law_highlight_keeps_the_selection(
    table: Seq<char>,
    query: Seq<char>,
    limit: nat,
)
    ensures
        selection(table, query, limit).is_suffix_of(bm25_query(table, query, limit)),
        selection(table, query, limit).is_suffix_of(highlight_query(table, query, limit)),
{
    let tail = selection(table, query, limit);
    let bm25 = bm25_query(table, query, limit);
    let highlight = highlight_query(table, query, limit);
    assert(bm25.subrange(bm25.len() - tail.len(), bm25.len() as int) =~= tail);
    assert(highlight.subrange(highlight.len() - tail.len(), highlight.len() as int) =~= tail);
}

/// Every search asks for documents that match its query, and for no others: the
/// condition stands between the table and the order, and the order and the limit
/// end the statement.
pub proof fn law_every_search_filters_by_its_query(
    table: Seq<char>,
    query: Seq<char>,
    limit: nat,
)
    ensures
        ({
            let condition = " FROM "@ + table + " WHERE BM25(content, '"@ + query + "') > 0 "@;
            let order = "ORDER BY BM25(content, '"@ + query + "') LIMIT "@ + text::decimal(limit);
            let bm25 = bm25_query(table, query, limit);
            let highlight = highlight_query(table, query, limit);
            &&& (condition + order).is_suffix_of(bm25)
            &&& (condition + order).is_suffix_of(highlight)
            &&& exists|i: int|
                0 <= i <= bm25.len() - condition.len() && #[trigger] bm25.subrange(
                    i,
                    i + condition.len(),
                ) == condition
            &&& exists|i: int|
                0 <= i <= highlight.len() - condition.len() && #[trigger] highlight.subrange(
                    i,
                    i + condition.len(),
                ) == condition
        }),
{
    let condition = " FROM "@ + table + " WHERE BM25(content, '"@ + query + "') > 0 "@;
    let order = "ORDER BY BM25(content, '"@ + query + "') LIMIT "@ + text::decimal(limit);
    let tail = condition + order;
    reveal_strlit("') > 0 ");
    reveal_strlit("ORDER BY BM25(content, '");
    reveal_strlit("') > 0 ORDER BY BM25(content, '");
    assert("') > 0 "@ + "ORDER BY BM25(content, '"@ =~= "') > 0 ORDER BY BM25(content, '"@);
    assert(tail =~= " FROM "@ + table + " WHERE BM25(content, '"@ + query + ("') > 0 "@
        + "ORDER BY BM25(content, '"@) + query + "') LIMIT "@ + text::decimal(limit));
    assert(selection(table, query, limit) =~= tail);
    let bm25 = bm25_query(table, query, limit);
    let highlight = highlight_query(table, query, limit);
    assert(bm25.subrange(bm25.len() - tail.len(), bm25.len() as int) =~= tail);
    assert(highlight.subrange(highlight.len() - tail.len(), highlight.len() as int) =~= tail);
    let i = bm25.len() - tail.len();
    assert(bm25.subrange(i, i + condition.len()) =~= condition);
    let k = highlight.len() - tail.len();
    assert(highlight.subrange(k, k + condition.len()) =~= condition);
}

/// Different queries to the same table give different statements.
pub proof fn law_the_query_shows_in_the_statement(
    table: Seq<char>,
    a: Seq<char>,
    b: Seq<char>,
    limit: nat,
)
    requires
        bm25_query(table, a, limit) == bm25_query(table, b, limit) || highlight_query(
            table,
            a,
            limit,
        ) == highlight_query(table, b, limit),
    ensures
        a == b,
{
    let bm25 = "SELECT pk"@ + " FROM "@ + table + " WHERE BM25(content, '"@;
    let highlight = "SELECT pk, HIGHLIGHT(content, '"@;
    let shared = ("') > 0 ORDER BY BM25(content, '"@ + "') LIMIT "@ + text::decimal(limit)).len();
    let excerpt = "') AS excerpt"@.len();
    assert(bm25_query(table, a, limit).len() == bm25.len() + shared + 2 * a.len());
    assert(bm25_query(table, b, limit).len() == bm25.len() + shared + 2 * b.len());
    let named = (" FROM "@ + table + " WHERE BM25(content, '"@).len();
    assert(highlight_query(table, a, limit).len() == highlight.len() + excerpt + named + shared + 3
        * a.len());
    assert(highlight_query(table, b, limit).len() == highlight.len() + excerpt + named + shared + 3
        * b.len());
    if bm25_query(table, a, limit) == bm25_query(table, b, limit) {
        let from = bm25.len() as int;
        assert(bm25_query(table, a, limit).subrange(from, from + a.len()) =~= a);
        assert(bm25_query(table, b, limit).subrange(from, from + b.len()) =~= b);
    } else {
        let from = highlight.len() as int;
        assert(highlight_query(table, a, limit).subrange(from, from + a.len()) =~= a);
        assert(highlight_query(table, b, limit).subrange(from, from + b.len()) =~= b);
    }
}

/// Different limits give different statements.
pub proof fn law_limit_shows_in_the_query(
    table: Seq<char>,
    query: Seq<char>,
    a: nat,
    b: nat,
)
    requires
        bm25_query(table, query, a) == bm25_query(table, query, b) || highlight_query(
            table,
            query,
            a,
        ) == highlight_query(table, query, b),
    ensures
        a == b,
{
    let head = " WHERE BM25(content, '"@ + query + "') > 0 ORDER BY BM25(content, '"@ + query
        + "') LIMIT "@;
    let bm25 = "SELECT pk"@ + " FROM "@ + table + head;
    let highlight = "SELECT pk, HIGHLIGHT(content, '"@ + query + "') AS excerpt"@ + " FROM "@
        + table + head;
    assert(bm25_query(table, query, a) =~= bm25 + text::decimal(a));
    assert(bm25_query(table, query, b) =~= bm25 + text::decimal(b));
    assert(highlight_query(table, query, a) =~= highlight + text::decimal(a));
    assert(highlight_query(table, query, b) =~= highlight + text::decimal(b));
    if bm25_query(table, query, a) == bm25_query(table, query, b) {
        lemma_same_prefix(bm25, text::decimal(a), text::decimal(b));
    } else {
        lemma_same_prefix(highlight, text::decimal(a), text::decimal(b));
    }
    text::law_decimal_is_injective(a, b);
}

/// What follows the same beginning of the same text is the same.
proof fn lemma_same_prefix(prefix: Seq<char>, a: Seq<char>, b: Seq<char>)
    requires
        prefix + a == prefix + b,
    ensures
        a == b,
{
    assert((prefix + a).skip(prefix.len() as int) =~= a);
    assert((prefix + b).skip(prefix.len() as int) =~= b);
}

/// Adds the part that both searches end with.
fn push_selection(statement: &mut String, table: &TableName, query: &str, limit: usize)
    ensures
        final(statement)@ == old(statement)@ + selection(table.0@, query@, limit as nat),
        final(statement)@ == old(statement)@ + " FROM "@ + table.0@ + " WHERE BM25(content, '"@ + query@
            + "') > 0 ORDER BY BM25(content, '"@ + query@ + "') LIMIT "@ + text::decimal(
            limit as nat,
        ),
{
    let ghost before = statement@;
    statement.append(" FROM ");
    statement.append(table.0.as_str());
    statement.append(" WHERE BM25(content, '");
    statement.append(query);
    statement.append("') > 0 ORDER BY BM25(content, '");
    statement.append(query);
    statement.append("') LIMIT ");
    statement.append(text::decimal_text(limit as u64).as_str());
    assert(statement@ =~= before + selection(table.0@, query@, limit as nat));
}

/// The statement that finds the documents of `table` that match `query`, most
/// relevant first, each with an excerpt that highlights the match.
pub fn highlight_select_query(table: &TableName, query: &str, limit: usize) -> (statement: String)
    ensures
        statement@ == highlight_query(table.0@, query@, limit as nat),
        statement@ == "SELECT pk, HIGHLIGHT(content, '"@ + query@ + "') AS excerpt"@ + " FROM "@ + table.0@ + " WHERE BM25(content, '"@ + query@
            + "') > 0 ORDER BY BM25(content, '"@ + query@ + "') LIMIT "@ + text::decimal(
            limit as nat,
        ),
{
    let mut statement = "SELECT pk, HIGHLIGHT(content, '".to_string();
    statement.append(query);
    statement.append("') AS excerpt");
    push_selection(&mut statement, table, query, limit);
    statement
}

/// The columns of a table of documents.
pub const DOCUMENT_COLUMNS: &'static str = "pk INT PRIMARY KEY, content TEXT";

/// The statement that creates a table with the given columns.
pub fn create_table_statement(table: &TableName, columns: &str) -> (statement: String)
    ensures
        statement@ == "CREATE TABLE "@ + table.0@ + " ("@ + columns@ + ")"@,
{
    let mut statement = "CREATE TABLE ".to_string();
    statement.append(table.0.as_str());
    statement.append(" (");
    statement.append(columns);
    statement.append(")");
    statement
}

/// The statement that creates a full-text index on a column.
pub fn create_fts_index_statement(index: &IndexName, table: &TableName, column: &str) -> (statement:
    String)
    ensures
        statement@ == "CREATE CUSTOM INDEX "@ + index.0@ + " ON "@ + table.0@ + "("@ + column@
            + ") USING 'fulltext_index'"@,
{
    let mut statement = "CREATE CUSTOM INDEX ".to_string();
    statement.append(index.0.as_str());
    statement.append(" ON ");
    statement.append(table.0.as_str());
    statement.append("(");
    statement.append(column);
    statement.append(") USING 'fulltext_index'");
    statement
}

/// The statement that drops a keyspace.
pub fn drop_keyspace_statement(keyspace: &KeyspaceName) -> (statement: String)
    ensures
        statement@ == "DROP KEYSPACE "@ + keyspace.0@,
{
    let mut statement = "DROP KEYSPACE ".to_string();
    statement.append(keyspace.0.as_str());
    statement
}

/// A keyspace with a table of documents, and the full-text index on them once
/// there is one.
#[derive(Debug)]
pub struct Fixture {
    pub keyspace: KeyspaceName,
    pub table: TableName,
    pub index: Option<IndexName>,
}

impl Fixture {
    /// A table without an index.
    pub fn new(keyspace: KeyspaceName, table: TableName) -> (fixture: Self)
        ensures
            fixture.keyspace == keyspace,
            fixture.table == table,
            fixture.index is None,
    {
        Fixture { keyspace, table, index: None }
    }

    /// Notes the index that was created, in place of an earlier one.
    pub fn index_created(&mut self, index: IndexName)
        ensures
            final(self).keyspace == old(self).keyspace,
            final(self).table == old(self).table,
            final(self).index == Some(index),
    {
        self.index = Some(index);
    }

    /// The index that was created last.
    pub fn index(&self) -> (index: &IndexName)
        requires
            self.index is Some,
        ensures
            Some(*index) == self.index,
    {
        self.index.as_ref().unwrap()
    }

    /// The statement that stores a document.
    pub fn insert_statement(&self) -> (statement: String)
        ensures
            statement@ == "INSERT INTO "@ + self.table.0@ + " (pk, content) VALUES (?, ?)"@,
    {
        let mut statement = "INSERT INTO ".to_string();
        statement.append(self.table.0.as_str());
        statement.append(" (pk, content) VALUES (?, ?)");
        statement
    }

    /// The statement that deletes a document.
    pub fn delete_statement(&self) -> (statement: String)
        ensures
            statement@ == "DELETE FROM "@ + self.table.0@ + " WHERE pk = ?"@,
    {
        let mut statement = "DELETE FROM ".to_string();
        statement.append(self.table.0.as_str());
        statement.append(" WHERE pk = ?");
        statement
    }

    /// The statement that drops the index.
    pub fn drop_index_statement(&self) -> (statement: String)
        requires
            self.index is Some,
        ensures
            statement@ == "DROP INDEX "@ + (self.index->0).0@,
    {
        let mut statement = "DROP INDEX ".to_string();
        statement.append(self.index().0.as_str());
        statement
    }

    /// The statement that finds the documents that match `query`, most relevant
    /// first.
    pub fn bm25_select_query(&self, query: &str, limit: usize) -> (statement: String)
        ensures
            statement@ == bm25_query(self.table.0@, query@, limit as nat),
            statement@ == "SELECT pk"@ + " FROM "@ + self.table.0@ + " WHERE BM25(content, '"@ + query@
            + "') > 0 ORDER BY BM25(content, '"@ + query@ + "') LIMIT "@ + text::decimal(
            limit as nat,
        ),
    {
        let mut statement = "SELECT pk".to_string();
        push_selection(&mut statement, &self.table, query, limit);
        statement
    }

    /// The statement that finds the documents that match `query`, most relevant
    /// first, each with an excerpt that highlights the match.
    pub fn highlight_select_query(&self, query: &str, limit: usize) -> (statement: String)
        ensures
            statement@ == highlight_query(self.table.0@, query@, limit as nat),
            statement@ == "SELECT pk, HIGHLIGHT(content, '"@ + query@ + "') AS excerpt"@ + " FROM "@ + self.table.0@ + " WHERE BM25(content, '"@ + query@
            + "') > 0 ORDER BY BM25(content, '"@ + query@ + "') LIMIT "@ + text::decimal(
            limit as nat,
        ),
    {
        highlight_select_query(&self.table, query, limit)
    }

    /// The keys of the rows that came back, in their order.
    pub fn extract_pks(rows: &Vec<(i32,)>) -> (pks: Vec<i32>)
        ensures
            pks@ == rows@.map_values(|row: (i32,)| row.0),
    {
        let mut pks: Vec<i32> = Vec::new();
        let mut i: usize = 0;
        while i < rows.len()
            invariant
                i <= rows@.len(),
                pks@ == rows@.take(i as int).map_values(|row: (i32,)| row.0),
            decreases rows@.len() - i,
        {
            pks.push(rows[i].0);
            i = i + 1;
            assert(pks@ =~= rows@.take(i as int).map_values(|row: (i32,)| row.0));
        }
        assert(rows@.take(i as int) =~= rows@);
        pks
    }

    /// The excerpt for each key. Where a key occurs twice the later row counts.
    pub fn highlight_excerpts(rows: &Vec<(i32, Option<String>)>) -> (excerpts: HashMap<i32, String>)
        requires
            forall|i: int| 0 <= i < rows@.len() ==> (#[trigger] rows@[i]).1 is Some,
        ensures
            excerpts@ == excerpts_of(rows@),
    {
        let mut excerpts: HashMap<i32, String> = HashMap::new();
        let mut i: usize = 0;
        while i < rows.len()
            invariant
                i <= rows@.len(),
                forall|j: int| 0 <= j < rows@.len() ==> (#[trigger] rows@[j]).1 is Some,
                excerpts@ == excerpts_of(rows@.take(i as int)),
            decreases rows@.len() - i,
        {
            let row = &rows[i];
            assert(rows@.take(i + 1).drop_last() =~= rows@.take(i as int));
            match &row.1 {
                Some(excerpt) => {
                    excerpts.insert(row.0, excerpt.clone());
                },
                None => {},
            }
            i = i + 1;
        }
        assert(rows@.take(i as int) =~= rows@);
        excerpts
    }
}

/// The excerpt for each key; where a key occurs twice the later row counts.
pub open spec fn excerpts_of(rows: Seq<(i32, Option<String>)>) -> Map<i32, String>
    decreases rows.len(),
{
    if rows.len() == 0 {
        Map::empty()
    } else {
        excerpts_of(rows.drop_last()).insert(rows.last().0, rows.last().1->0)
    }
}

/// Each key is mapped to the excerpt of its own row, as long as no later row
/// has the same key; and no other key is mapped.
pub proof fn law_excerpts_align_with_their_rows(rows: Seq<(i32, Option<String>)>)
    ensures
        forall|i: int|
            0 <= i < rows.len() && (forall|j: int| i < j < rows.len() ==> rows[j].0 != rows[i].0)
                ==> {
                &&& excerpts_of(rows).contains_key((#[trigger] rows[i]).0)
                &&& excerpts_of(rows)[rows[i].0] == rows[i].1->0
            },
        forall|pk: i32| #[trigger]
            excerpts_of(rows).contains_key(pk) ==> exists|i: int|
                0 <= i < rows.len() && (#[trigger] rows[i]).0 == pk,
    decreases rows.len(),
{
    if rows.len() > 0 {
        let before = rows.drop_last();
        law_excerpts_align_with_their_rows(before);
        assert forall|i: int|
            0 <= i < rows.len() && (forall|j: int| i < j < rows.len() ==> rows[j].0 != rows[i].0)
            implies {
            &&& excerpts_of(rows).contains_key((#[trigger] rows[i]).0)
            &&& excerpts_of(rows)[rows[i].0] == rows[i].1->0
        } by {
            if i < before.len() {
                assert(before[i] == rows[i]);
                assert(rows[rows.len() - 1].0 != rows[i].0);
                assert forall|j: int| i < j < before.len() implies before[j].0 != before[i].0 by {
                    assert(rows[j].0 != rows[i].0);
                }
            }
        }
        assert forall|pk: i32| #[trigger] excerpts_of(rows).contains_key(pk) implies exists|i: int|
            0 <= i < rows.len() && (#[trigger] rows[i]).0 == pk by {
            if pk == rows.last().0 {
                assert(rows[rows.len() - 1].0 == pk);
            } else {
                assert(excerpts_of(before).contains_key(pk));
                let i = choose|i: int| 0 <= i < before.len() && (#[trigger] before[i]).0 == pk;
                assert(rows[i].0 == pk);
            }
        }
    }
}

/// The first key whose row came back without an excerpt.
pub fn missing_highlight(rows: &Vec<(i32, Option<String>)>) -> (pk: Option<i32>)
    ensures
        pk is None <==> forall|i: int| 0 <= i < rows@.len() ==> (#[trigger] rows@[i]).1 is Some,
        pk matches Some(key) ==> exists|i: int|
            0 <= i < rows@.len() && (#[trigger] rows@[i]) == (key, None::<String>) && forall|j: int|
                0 <= j < i ==> (#[trigger] rows@[j]).1 is Some,
{
    let mut i: usize = 0;
    while i < rows.len()
        invariant
            i <= rows@.len(),
            forall|j: int| 0 <= j < i ==> (#[trigger] rows@[j]).1 is Some,
        decreases rows@.len() - i,
    {
        if rows[i].1.is_none() {
            assert(rows@[i as int] == (rows@[i as int].0, None::<String>));
            return Some(rows[i].0);
        }
        i = i + 1;
    }
    None
}

/// Whether a search is done: it returned, and as many rows as expected.
pub fn returned_as_expected(rows: Option<usize>, expected_count: usize) -> (done: bool)
    ensures
        done <==> rows == Some(expected_count),
{
    match rows {
        Some(count) => count == expected_count,
        None => false,
    }
}

/// What is waited for while a highlighting search has not returned enough.
pub fn highlight_wait_text(query: &str, expected_count: usize) -> (text: String)
    ensures
        text@ == "HIGHLIGHT query '"@ + query@ + "' to return "@ + text::decimal(
            expected_count as nat,
        ) + " documents"@,
{
    let mut text = "HIGHLIGHT query '".to_string();
    text.append(query);
    text.append("' to return ");
    text.append(text::decimal_text(expected_count as u64).as_str());
    text.append(" documents");
    text
}

} // verus!
