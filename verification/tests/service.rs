use serde_json::Value;
use vector_store::config::{
    background_threads, first_address, opensearch_uri, scylladb_uri, usearch_uri,
};
use vector_store::db_index::{
    item_from_row, key_from_column, DbIndex, DbStep, IndexMetadata, Statements,
};
use vector_store::opensearch::{
    client_built, client_for, create_opensearch_client, created, new, opensearch_address, permits_for,
    queue_permits, Client, ClientError,
};
use vector_store::types::{
    ColumnName, Connectivity, Dimensions, ExpansionAdd, ExpansionSearch, IndexId, Key, TableName,
};

fn some(text: &str) -> Option<String> {
    Some(text.to_string())
}

#[test]
fn addresses_have_defaults() {
    assert_eq!(usearch_uri(None), "127.0.0.1:6080");
    assert_eq!(usearch_uri(some("0.0.0.0:80")), "0.0.0.0:80");
    assert_eq!(scylladb_uri(None), "127.0.0.1:9042");
    assert_eq!(scylladb_uri(some("db:9042")), "db:9042");
    assert_eq!(opensearch_uri(None, None), "127.0.0.1:9200");
    assert_eq!(opensearch_uri(some("search"), some("1")), "search:1");
    assert_eq!(opensearch_address(None, None), "http://localhost:9200");
    assert_eq!(
        opensearch_address(some("http://search"), some("1")),
        "http://search:1"
    );
}

#[test]
fn background_threads_are_optional() {
    assert_eq!(background_threads(None), None);
    assert_eq!(background_threads(some("8")), Some(8));
    assert_eq!(background_threads(some("many")), None);
    assert_eq!(background_threads(some("")), None);
}

#[test]
fn first_address_takes_the_first() {
    assert_eq!(first_address(vec!["a", "b", "c"]), Some("a"));
    assert_eq!(first_address::<u8>(vec![]), None);
}

fn metadata() -> IndexMetadata {
    IndexMetadata {
        table_name: TableName("items".to_string()),
        key_name: ColumnName("id".to_string()),
        target_name: ColumnName("embedding".to_string()),
    }
}

#[test]
fn statements_select_from_the_table_of_the_index() {
    let statements = Statements::new(&metadata());
    assert_eq!(
        statements.st_get_processed_ids,
        "
            SELECT id
            FROM items
            WHERE processed = TRUE
            LIMIT 1000
            "
    );
    assert_eq!(
        statements.st_get_items,
        "
            SELECT id, embedding
            FROM items
            WHERE processed = FALSE
            "
    );
}

#[test]
fn requests_pick_their_statement() {
    let statements = Statements::new(&metadata());
    let ids: DbIndex<u8, u16> = DbIndex::GetProcessedIds { tx: 1 };
    match statements.process(ids) {
        DbStep::FetchProcessedIds { statement, tx } => {
            assert_eq!(statement, &statements.st_get_processed_ids);
            assert_eq!(tx, 1);
        }
        DbStep::FetchItems { .. } => panic!("items"),
    }
    let items: DbIndex<u8, u16> = DbIndex::GetItems { tx: 2 };
    match statements.process(items) {
        DbStep::FetchItems { statement, tx } => {
            assert_eq!(statement, &statements.st_get_items);
            assert_eq!(tx, 2);
        }
        DbStep::FetchProcessedIds { .. } => panic!("ids"),
    }
}

#[test]
fn column_values_become_keys() {
    assert_eq!(key_from_column(5), Key(5));
    assert_eq!(key_from_column(-1), Key(u64::MAX));
    assert_eq!(key_from_column(i64::MIN), Key(1 << 63));
    assert_eq!(key_from_column(5).to_string(), "5");
    assert_eq!(*Key::from(7).as_ref(), 7);
    let (key, embeddings) = item_from_row((-2, vec![0.5f32, 1.5]));
    assert_eq!(key, Key(u64::MAX - 1));
    assert_eq!(embeddings.0, vec![0.5, 1.5]);
}

fn number(value: &Value, path: &[&str]) -> u64 {
    let mut value = value;
    for name in path {
        value = value.get(name).unwrap();
    }
    value.as_u64().unwrap()
}

#[test]
fn the_index_body_is_the_json_document_opensearch_expects() {
    let plan = new(
        IndexId("store".to_string()),
        Dimensions::new(3).unwrap(),
        Connectivity(0),
        ExpansionAdd(0),
        ExpansionSearch(0),
    );
    assert_eq!(plan.index, "store");
    assert_eq!(plan.channel_size, 100000);
    assert_eq!(
        plan.body,
        "{\"mappings\":{\"properties\":{\"vector\":{\"dimension\":3,\"method\":{\"name\":\"hnsw\",\
         \"parameters\":{\"ef_construction\":100,\"ef_search\":100,\"m\":16}},\
         \"type\":\"knn_vector\"}}},\"settings\":{\"index.knn\":true}}"
    );
    let body: Value = serde_json::from_str(&plan.body).unwrap();
    // Written out again it is the same text.
    assert_eq!(body.to_string(), plan.body);
    assert_eq!(
        body.get("settings").unwrap().get("index.knn"),
        Some(&Value::Bool(true))
    );
}

#[test]
fn the_index_body_carries_positive_settings() {
    let plan = new(
        IndexId("store".to_string()),
        Dimensions::new(768).unwrap(),
        Connectivity(32),
        ExpansionAdd(128),
        ExpansionSearch(64),
    );
    let body: Value = serde_json::from_str(&plan.body).unwrap();
    let vector = ["mappings", "properties", "vector"];
    assert_eq!(number(&body, &[vector[0], vector[1], vector[2], "dimension"]), 768);
    let parameters = body
        .get("mappings")
        .and_then(|value| value.get("properties"))
        .and_then(|value| value.get("vector"))
        .and_then(|value| value.get("method"))
        .and_then(|value| value.get("parameters"))
        .unwrap();
    assert_eq!(number(parameters, &["ef_construction"]), 128);
    assert_eq!(number(parameters, &["ef_search"]), 64);
    assert_eq!(number(parameters, &["m"]), 32);
}

#[test]
fn a_refused_creation_is_logged() {
    assert_eq!(created("store", Ok(())), Ok(()));
    assert_eq!(
        created("store", Err("exists".to_string())),
        Err("engine::new: unable to create index with id store: exists".to_string())
    );
}

#[test]
fn permits_are_twice_the_threads() {
    assert_eq!(permits_for(8), 16);
    assert_eq!(queue_permits(), 2 * rayon::current_num_threads());
}

#[test]
fn an_invalid_address_gives_no_client() {
    match create_opensearch_client(some("http://localhost"), some("port")) {
        Err(ClientError::InvalidAddress(message)) => assert_eq!(message, "invalid port number"),
        other => panic!("{:?}", other.map(|_| ())),
    }
    match create_opensearch_client(some(""), None) {
        Err(ClientError::InvalidAddress(message)) => {
            assert_eq!(message, "relative URL without a base")
        }
        other => panic!("{:?}", other.map(|_| ())),
    }
    assert!(matches!(
        client_for(Err("no address".to_string())),
        Err(ClientError::InvalidAddress(message)) if message == "no address"
    ));
}

#[test]
fn a_failed_transport_gives_no_client() {
    assert!(matches!(
        client_built(Err("no TLS".to_string())),
        Err(ClientError::Transport(message)) if message == "no TLS"
    ));
}

/// What the client shows of the address that it talks to.
fn shown(client: Result<Client, ClientError>) -> String {
    match client {
        Ok(client) => format!("{:?}", client.into_inner()),
        Err(err) => panic!("{err:?}"),
    }
}

#[test]
fn a_client_talks_to_the_named_node() {
    let default = shown(create_opensearch_client(None, None));
    assert!(default.contains("Domain(\"localhost\")"), "{default}");
    assert!(default.contains("port: Some(9200)"), "{default}");

    let named = shown(create_opensearch_client(some("HTTP://Search.Example"), some("1234")));
    assert!(named.contains("Domain(\"search.example\")"), "{named}");
    assert!(named.contains("port: Some(1234)"), "{named}");
    assert!(!named.contains("localhost"), "{named}");

    let given = shown(client_for(Ok("http://127.0.0.1:4321/under".to_string())));
    assert!(given.contains("port: Some(4321)"), "{given}");
    assert!(given.contains("path: \"/under/\""), "{given}");
}
