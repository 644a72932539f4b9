use vector_store::fts::{
    create_fts_index_statement, create_table_statement, drop_keyspace_statement,
    highlight_select_query, highlight_wait_text, missing_highlight, returned_as_expected, Fixture,
    DEFAULT_LIMIT, DOCUMENT_COLUMNS,
};
use vector_store::types::{IndexName, KeyspaceName, TableName};

fn fixture() -> Fixture {
    Fixture::new(
        KeyspaceName("ks".to_string()),
        TableName("docs".to_string()),
    )
}

fn row(pk: i32, excerpt: &str) -> (i32, Option<String>) {
    (pk, Some(excerpt.to_string()))
}

#[test]
fn bm25_query_ranks_by_relevance() {
    assert_eq!(
        fixture().bm25_select_query("fox AND meadow", DEFAULT_LIMIT),
        "SELECT pk FROM docs WHERE BM25(content, 'fox AND meadow') > 0 \
         ORDER BY BM25(content, 'fox AND meadow') LIMIT 100"
    );
}

#[test]
fn highlight_query_marks_what_matched() {
    let expected = "SELECT pk, HIGHLIGHT(content, 'fox') AS excerpt FROM docs \
         WHERE BM25(content, 'fox') > 0 \
         ORDER BY BM25(content, 'fox') LIMIT 3";
    assert_eq!(
        highlight_select_query(&TableName("docs".to_string()), "fox", 3),
        expected
    );
    assert_eq!(fixture().highlight_select_query("fox", 3), expected);
}

#[test]
fn both_queries_end_alike() {
    let bm25 = fixture().bm25_select_query("za\u{17c}", 7);
    let highlight = fixture().highlight_select_query("za\u{17c}", 7);
    let selection = &bm25["SELECT pk".len()..];
    assert!(selection.starts_with(" FROM docs WHERE BM25"));
    assert!(highlight.ends_with(selection));
    assert_ne!(bm25, fixture().bm25_select_query("za\u{17c}", 70));
}

#[test]
fn statements_name_the_table() {
    let mut fixture = fixture();
    assert_eq!(
        fixture.insert_statement(),
        "INSERT INTO docs (pk, content) VALUES (?, ?)"
    );
    assert_eq!(
        create_table_statement(&fixture.table, DOCUMENT_COLUMNS),
        "CREATE TABLE docs (pk INT PRIMARY KEY, content TEXT)"
    );
    assert_eq!(fixture.delete_statement(), "DELETE FROM docs WHERE pk = ?");
    assert!(fixture.index.is_none());
    fixture.index_created(IndexName("idx".to_string()));
    assert_eq!(fixture.index().0, "idx");
    assert_eq!(fixture.drop_index_statement(), "DROP INDEX idx");
    assert_eq!(
        drop_keyspace_statement(&fixture.keyspace),
        "DROP KEYSPACE ks"
    );
    assert_eq!(
        create_fts_index_statement(&IndexName("idx".to_string()), &fixture.table, "num"),
        "CREATE CUSTOM INDEX idx ON docs(num) USING 'fulltext_index'"
    );
}

#[test]
fn keys_come_out_in_row_order() {
    assert_eq!(Fixture::extract_pks(&vec![(3,), (1,), (2,)]), vec![3, 1, 2]);
    assert!(Fixture::extract_pks(&vec![]).is_empty());
}

#[test]
fn excerpts_belong_to_their_rows() {
    let rows = vec![row(1, "quick brown <b>fox</b>"), row(3, "<b>fox</b> runs")];
    let excerpts = Fixture::highlight_excerpts(&rows);
    assert_eq!(excerpts.len(), 2);
    assert_eq!(excerpts[&1], "quick brown <b>fox</b>");
    assert_eq!(excerpts[&3], "<b>fox</b> runs");
}

#[test]
fn a_later_row_of_the_same_key_counts() {
    let excerpts = Fixture::highlight_excerpts(&vec![row(1, "first"), row(1, "second")]);
    assert_eq!(excerpts.len(), 1);
    assert_eq!(excerpts[&1], "second");
}

#[test]
fn the_first_missing_highlight_is_named() {
    assert_eq!(missing_highlight(&vec![]), None);
    assert_eq!(missing_highlight(&vec![row(1, "a")]), None);
    assert_eq!(
        missing_highlight(&vec![row(1, "a"), (5, None), (6, None)]),
        Some(5)
    );
}

#[test]
fn a_search_is_done_when_it_returns_enough() {
    assert!(returned_as_expected(Some(2), 2));
    assert!(!returned_as_expected(Some(1), 2));
    assert!(!returned_as_expected(None, 0));
    assert_eq!(
        highlight_wait_text("fox", 2),
        "HIGHLIGHT query 'fox' to return 2 documents"
    );
}
