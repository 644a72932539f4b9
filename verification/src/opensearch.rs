//! Indexes that OpenSearch keeps.

use crate::config;
use crate::text;
use crate::types::{Connectivity, Dimensions, ExpansionAdd, ExpansionSearch, IndexId};
use vstd::prelude::*;

verus! {

/// How many requests can wait for an index.
pub const CHANNEL_SIZE: usize = 100000;

/// Candidates looked at, while adding and while searching, where the settings
/// leave it open.
pub const DEFAULT_EXPANSION: usize = 100;

/// Neighbours kept per node where the settings leave it open.
pub const DEFAULT_CONNECTIVITY: usize = 16;

/// The most threads that the thread pool has.
pub const MAX_THREADS: usize = 65535;

/// The setting where it is positive, else the default.
pub open spec fn positive_or(setting: usize, default: usize) -> usize {
    if setting > 0 {
        setting
    } else {
        default
    }
}

/// The setting where it is positive, else the default.
fn value_or_default(setting: usize, default: usize) -> (value: usize)
    ensures
        value == positive_or(setting, default),
{
    if setting > 0 {
        setting
    } else {
        default
    }
}

/// The JSON document that an index with these parameters is created with.
pub open spec fn index_body(
    dimension: nat,
    ef_construction: nat,
    ef_search: nat,
    m: nat,
) -> Seq<char> {
    "{\"mappings\":{\"properties\":{\"vector\":{\"dimension\":"@ + text::decimal(dimension)
        + ",\"method\":{\"name\":\"hnsw\",\"parameters\":{\"ef_construction\":"@ + text::decimal(
        ef_construction,
    ) + ",\"ef_search\":"@ + text::decimal(ef_search) + ",\"m\":"@ + text::decimal(m)
        + "}},\"type\":\"knn_vector\"}}},\"settings\":{\"index.knn\":true}}"@
}

/// What an index is created and served with.
#[derive(Debug)]
pub struct IndexPlan {
    /// The name that the request creates the index under.
    pub index: String,
    /// The JSON document of the request that creates the index.
    pub body: String,
    /// How many requests can wait.
    pub channel_size: usize,
}

/// Works out what an index is created and served with. It is created under its
/// own identifier; settings that are zero are left to defaults.
pub fn new(
    id: IndexId,
    dimensions: Dimensions,
    connectivity: Connectivity,
    expansion_add: ExpansionAdd,
    expansion_search: ExpansionSearch,
) -> (plan: IndexPlan)
    ensures
        plan.index@ == id.0@,
        plan.body@ == index_body(
            dimensions.value() as nat,
            positive_or(expansion_add.0, DEFAULT_EXPANSION) as nat,
            positive_or(expansion_search.0, DEFAULT_EXPANSION) as nat,
            positive_or(connectivity.0, DEFAULT_CONNECTIVITY) as nat,
        ),
        plan.channel_size == CHANNEL_SIZE,
        plan.channel_size == 100000,
        plan.body@ == "{\"mappings\":{\"properties\":{\"vector\":{\"dimension\":"@ + text::decimal(
            dimensions.value() as nat,
        ) + ",\"method\":{\"name\":\"hnsw\",\"parameters\":{\"ef_construction\":"@ + text::decimal(
            (if expansion_add.0 > 0 {
                expansion_add.0
            } else {
                100usize
            }) as nat,
        ) + ",\"ef_search\":"@ + text::decimal(
            (if expansion_search.0 > 0 {
                expansion_search.0
            } else {
                100usize
            }) as nat,
        ) + ",\"m\":"@ + text::decimal(
            (if connectivity.0 > 0 {
                connectivity.0
            } else {
                16usize
            }) as nat,
        )
            + "}},\"type\":\"knn_vector\"}}},\"settings\":{\"index.knn\":true}}"@,
{
    let ef_search: usize = value_or_default(expansion_search.0, DEFAULT_EXPANSION);
    let ef_construction: usize = value_or_default(expansion_add.0, DEFAULT_EXPANSION);
    let m: usize = value_or_default(connectivity.0, DEFAULT_CONNECTIVITY);
    let mut body = "{\"mappings\":{\"properties\":{\"vector\":{\"dimension\":".to_string();
    body.append(text::decimal_text(dimensions.get() as u64).as_str());
    body.append(",\"method\":{\"name\":\"hnsw\",\"parameters\":{\"ef_construction\":");
    body.append(text::decimal_text(ef_construction as u64).as_str());
    body.append(",\"ef_search\":");
    body.append(text::decimal_text(ef_search as u64).as_str());
    body.append(",\"m\":");
    body.append(text::decimal_text(m as u64).as_str());
    body.append("}},\"type\":\"knn_vector\"}}},\"settings\":{\"index.knn\":true}}");
    IndexPlan { index: id.0, body, channel_size: CHANNEL_SIZE }
}

/// The body determines its parameters: two documents are the same only where the
/// dimension and the three settings are.
pub proof fn law_the_body_determines_its_parameters(
    dimension: (nat, nat),
    ef_construction: (nat, nat),
    ef_search: (nat, nat),
    m: (nat, nat),
)
    requires
        index_body(dimension.0, ef_construction.0, ef_search.0, m.0) == index_body(
            dimension.1,
            ef_construction.1,
            ef_search.1,
            m.1,
        ),
    ensures
        dimension.0 == dimension.1,
        ef_construction.0 == ef_construction.1,
        ef_search.0 == ef_search.1,
        m.0 == m.1,
{
    let head = "{\"mappings\":{\"properties\":{\"vector\":{\"dimension\":"@;
    let method = ",\"method\":{\"name\":\"hnsw\",\"parameters\":{\"ef_construction\":"@;
    let search = ",\"ef_search\":"@;
    let edges = ",\"m\":"@;
    let tail = "}},\"type\":\"knn_vector\"}}},\"settings\":{\"index.knn\":true}}"@;
    lemma_numbers_are_followed_by_no_digit();
    lemma_grouped(head, method, search, edges, tail, dimension.0, ef_construction.0, ef_search.0, m.0);
    lemma_grouped(head, method, search, edges, tail, dimension.1, ef_construction.1, ef_search.1, m.1);
    let first_m = text::decimal(m.0) + tail;
    let second_m = text::decimal(m.1) + tail;
    let first_search = text::decimal(ef_search.0) + (edges + first_m);
    let second_search = text::decimal(ef_search.1) + (edges + second_m);
    let first_method = text::decimal(ef_construction.0) + (search + first_search);
    let second_method = text::decimal(ef_construction.1) + (search + second_search);
    let first = text::decimal(dimension.0) + (method + first_method);
    let second = text::decimal(dimension.1) + (method + second_method);
    lemma_same_beginning(head, first, second);
    text::law_a_number_ends_with_its_digits(
        dimension.0,
        dimension.1,
        method + first_method,
        method + second_method,
    );
    lemma_same_beginning(method, first_method, second_method);
    text::law_a_number_ends_with_its_digits(
        ef_construction.0,
        ef_construction.1,
        search + first_search,
        search + second_search,
    );
    lemma_same_beginning(search, first_search, second_search);
    text::law_a_number_ends_with_its_digits(
        ef_search.0,
        ef_search.1,
        edges + first_m,
        edges + second_m,
    );
    lemma_same_beginning(edges, first_m, second_m);
    text::law_a_number_ends_with_its_digits(m.0, m.1, tail, tail);
}

/// What follows the same beginning of the same text is the same.
proof fn lemma_same_beginning(beginning: Seq<char>, a: Seq<char>, b: Seq<char>)
    requires
        beginning + a == beginning + b,
    ensures
        a == b,
{
    assert((beginning + a).skip(beginning.len() as int) =~= a);
    assert((beginning + b).skip(beginning.len() as int) =~= b);
}

/// What stands behind the numbers of a body begins with no digit.
proof fn lemma_numbers_are_followed_by_no_digit()
    ensures
        ",\"method\":{\"name\":\"hnsw\",\"parameters\":{\"ef_construction\":"@.len() > 0 && ",\"method\":{\"name\":\"hnsw\",\"parameters\":{\"ef_construction\":"@[0] == ',',
        ",\"ef_search\":"@.len() > 0 && ",\"ef_search\":"@[0] == ',',
        ",\"m\":"@.len() > 0 && ",\"m\":"@[0] == ',',
        "}},\"type\":\"knn_vector\"}}},\"settings\":{\"index.knn\":true}}"@.len() > 0 && "}},\"type\":\"knn_vector\"}}},\"settings\":{\"index.knn\":true}}"@[0] == '}',
{
    reveal_strlit(",\"method\":{\"name\":\"hnsw\",\"parameters\":{\"ef_construction\":");
    reveal_strlit(",\"ef_search\":");
    reveal_strlit(",\"m\":");
    reveal_strlit("}},\"type\":\"knn_vector\"}}},\"settings\":{\"index.knn\":true}}");
}

/// Five texts with four numbers between them, grouped from the end.
proof fn lemma_grouped(
    head: Seq<char>,
    method: Seq<char>,
    search: Seq<char>,
    edges: Seq<char>,
    tail: Seq<char>,
    dimension: nat,
    ef_construction: nat,
    ef_search: nat,
    m: nat,
)
    ensures
        head + text::decimal(dimension) + method + text::decimal(ef_construction) + search
            + text::decimal(ef_search) + edges + text::decimal(m) + tail == head + (text::decimal(
            dimension,
        ) + (method + (text::decimal(ef_construction) + (search + (text::decimal(ef_search) + (edges
            + (text::decimal(m) + tail))))))),
{
    let n1 = text::decimal(dimension);
    let n2 = text::decimal(ef_construction);
    let n3 = text::decimal(ef_search);
    let n4 = text::decimal(m);
    let end = n4 + tail;
    let from_search = n3 + (edges + end);
    let from_method = n2 + (search + from_search);
    assert(n3 + edges + n4 + tail =~= from_search);
    assert(n2 + search + (n3 + edges + n4 + tail) =~= from_method);
    assert(n1 + method + from_method =~= n1 + (method + from_method));
    assert(head + n1 + method + n2 + search + n3 + edges + n4 + tail =~= head + (n1 + method
        + from_method));
}

/// The body names its parameters: each number stands, in full, behind its own
/// name.
pub proof fn law_the_body_names_its_parameters(
    dimension: nat,
    ef_construction: nat,
    ef_search: nat,
    m: nat,
)
    ensures
        ({
            let body = index_body(dimension, ef_construction, ef_search, m);
            let a = "\"dimension\":"@ + text::decimal(dimension) + ","@;
            let b = "\"ef_construction\":"@ + text::decimal(ef_construction) + ","@;
            let c = "\"ef_search\":"@ + text::decimal(ef_search) + ","@;
            let d = "\"m\":"@ + text::decimal(m) + "}"@;
            &&& exists|i: int|
                0 <= i <= body.len() - a.len() && #[trigger] body.subrange(i, i + a.len()) == a
            &&& exists|i: int|
                0 <= i <= body.len() - b.len() && #[trigger] body.subrange(i, i + b.len()) == b
            &&& exists|i: int|
                0 <= i <= body.len() - c.len() && #[trigger] body.subrange(i, i + c.len()) == c
            &&& exists|i: int|
                0 <= i <= body.len() - d.len() && #[trigger] body.subrange(i, i + d.len()) == d
        }),
{
    let head = "{\"mappings\":{\"properties\":{\"vector\":{\"dimension\":"@;
    let method = ",\"method\":{\"name\":\"hnsw\",\"parameters\":{\"ef_construction\":"@;
    let search = ",\"ef_search\":"@;
    let edges = ",\"m\":"@;
    let tail = "}},\"type\":\"knn_vector\"}}},\"settings\":{\"index.knn\":true}}"@;
    let body = index_body(dimension, ef_construction, ef_search, m);
    let n1 = text::decimal(dimension);
    let n2 = text::decimal(ef_construction);
    let n3 = text::decimal(ef_search);
    let n4 = text::decimal(m);
    lemma_numbers_are_followed_by_no_digit();
    lemma_names_stand_before_their_numbers();
    let from_edges = edges + n4 + tail;
    let from_search = search + n3 + from_edges;
    let from_method = method + n2 + from_search;
    assert(body =~= head + n1 + method + n2 + search + n3 + from_edges);
    assert(body =~= head + n1 + method + n2 + from_search);
    assert(body =~= head + n1 + from_method);
    assert(Seq::<char>::empty() + head =~= head);
    lemma_named(body, Seq::empty(), head, n1, from_method, "\"dimension\":"@, ","@);
    lemma_named(body, head + n1, method, n2, from_search, "\"ef_construction\":"@, ","@);
    lemma_named(body, head + n1 + method + n2, search, n3, from_edges, "\"ef_search\":"@, ","@);
    lemma_named(body, head + n1 + method + n2 + search + n3, edges, n4, tail, "\"m\":"@, "}"@);
}

/// Whether a text ends with a name.
spec fn ends_with(text: Seq<char>, name: Seq<char>) -> bool {
    name.len() <= text.len() && text.subrange(text.len() - name.len(), text.len() as int) == name
}

/// What stands before the numbers of a body ends with their names.
proof fn lemma_names_stand_before_their_numbers()
    ensures
        ends_with("{\"mappings\":{\"properties\":{\"vector\":{\"dimension\":"@, "\"dimension\":"@),
        ends_with(",\"method\":{\"name\":\"hnsw\",\"parameters\":{\"ef_construction\":"@, "\"ef_construction\":"@),
        ends_with(",\"ef_search\":"@, "\"ef_search\":"@),
        ends_with(",\"m\":"@, "\"m\":"@),
        ","@.len() == 1 && ","@[0] == ',',
        "}"@.len() == 1 && "}"@[0] == '}',
{
    reveal_strlit("{\"mappings\":{\"properties\":{\"vector\":{\"dimension\":");
    reveal_strlit(",\"method\":{\"name\":\"hnsw\",\"parameters\":{\"ef_construction\":");
    reveal_strlit(",\"ef_search\":");
    reveal_strlit(",\"m\":");
    reveal_strlit("\"dimension\":");
    reveal_strlit("\"ef_construction\":");
    reveal_strlit("\"ef_search\":");
    reveal_strlit("\"m\":");
    reveal_strlit(",");
    reveal_strlit("}");
    assert("{\"mappings\":{\"properties\":{\"vector\":{\"dimension\":"@.subrange("{\"mappings\":{\"properties\":{\"vector\":{\"dimension\":"@.len() - "\"dimension\":"@.len(), "{\"mappings\":{\"properties\":{\"vector\":{\"dimension\":"@.len() as int) =~= "\"dimension\":"@);
    assert(",\"method\":{\"name\":\"hnsw\",\"parameters\":{\"ef_construction\":"@.subrange(",\"method\":{\"name\":\"hnsw\",\"parameters\":{\"ef_construction\":"@.len() - "\"ef_construction\":"@.len(), ",\"method\":{\"name\":\"hnsw\",\"parameters\":{\"ef_construction\":"@.len() as int) =~= "\"ef_construction\":"@);
    assert(",\"ef_search\":"@.subrange(",\"ef_search\":"@.len() - "\"ef_search\":"@.len(), ",\"ef_search\":"@.len() as int) =~= "\"ef_search\":"@);
    assert(",\"m\":"@.subrange(",\"m\":"@.len() - "\"m\":"@.len(), ",\"m\":"@.len() as int) =~= "\"m\":"@);
}

/// A number whose name ends the text before it, and that is followed by `stop`,
/// stands in the text with both.
proof fn lemma_named(
    body: Seq<char>,
    before: Seq<char>,
    head: Seq<char>,
    number: Seq<char>,
    rest: Seq<char>,
    name: Seq<char>,
    stop: Seq<char>,
)
    requires
        body == before + head + number + rest,
        ends_with(head, name),
        stop.len() == 1,
        rest.len() > 0,
        rest[0] == stop[0],
    ensures
        ({
            let part = name + number + stop;
            exists|i: int|
                0 <= i <= body.len() - part.len() && #[trigger] body.subrange(i, i + part.len())
                    == part
        }),
{
    let part = name + number + stop;
    let i = before.len() + head.len() - name.len();
    assert forall|k: int| 0 <= k < name.len() implies name[k] == head[head.len() - name.len()
        + k] by {
        assert(head.subrange(head.len() - name.len(), head.len() as int)[k] == name[k]);
    }
    assert(body.subrange(i, i + part.len()) =~= part);
}

/// Decides what follows the attempt to create an index: it is served, or the
/// line to log says why not.
pub fn created(id: &str, outcome: Result<(), String>) -> (served: Result<(), String>)
    ensures
        served is Ok <==> outcome is Ok,
        served matches Err(line) ==> line@ == "engine::new: unable to create index with id "@ + id@
            + ": "@ + outcome->Err_0@,
{
    match outcome {
        Ok(_) => Ok(()),
        Err(err) => {
            let mut line = "engine::new: unable to create index with id ".to_string();
            line.append(id);
            line.append(": ");
            line.append(err.as_str());
            Err(line)
        },
    }
}

/// Calls `rayon::current_num_threads`, which gives the number of threads of the
/// pool that the caller runs in, or of the global pool, which it starts. A pool
/// has at least one thread, and no more than sixteen bits can count. The call
/// panics where the global pool cannot start its threads.
#[verifier::external_body]
fn current_num_threads() -> (threads: usize)
    ensures
        1 <= threads <= MAX_THREADS,
{
    rayon::current_num_threads()
}

/// How many tasks an index takes on at a time for a number of threads: twice as
/// many, so that there is always one waiting.
pub fn permits_for(threads: usize) -> (permits: usize)
    requires
        threads * 2 <= usize::MAX,
    ensures
        permits == threads * 2,
{
    threads * 2
}

/// How many tasks an index takes on at a time: twice the number of threads of
/// the thread pool.
pub fn queue_permits() -> (permits: usize)
    ensures
        permits % 2 == 0,
        2 <= permits <= 2 * MAX_THREADS,
{
    permits_for(current_num_threads())
}

/// A client of an OpenSearch node.
#[verifier::external_type_specification]
#[verifier::external_body]
pub struct ExOpenSearch(opensearch::OpenSearch);

/// What `Url::parse` makes of an address: the address as it writes it, or the
/// message of its error.
pub uninterp spec fn parsed_url(address: Seq<char>) -> Result<Seq<char>, Seq<char>>;

/// Calls `opensearch::http::Url::parse`. The parsed address, taken as text, and
/// the message of the error depend on the address alone.
#[verifier::external_body]
fn parse_url(address: &str) -> (url: Result<String, String>)
    ensures
        match url {
            Ok(text) => parsed_url(address@) == Ok::<Seq<char>, Seq<char>>(text@),
            Err(message) => parsed_url(address@) == Err::<Seq<char>, Seq<char>>(message@),
        },
{
    match opensearch::http::Url::parse(address) {
        Ok(url) => Ok(url.to_string()),
        Err(err) => Err(err.to_string()),
    }
}

/// How a client reaches its node.
pub ghost struct Connection {
    /// The address that the client was built for: requests are sent to it, with
    /// their paths added to its own.
    pub node: Seq<char>,
    /// Whether requests may go through a proxy.
    pub proxied: bool,
}

/// A client of a single OpenSearch node.
pub struct Client {
    inner: opensearch::OpenSearch,
    connection: Ghost<Connection>,
}

impl Client {
    /// The client that the requests are made with.
    pub closed spec fn client(self) -> opensearch::OpenSearch {
        self.inner
    }

    /// The address of the node that the client talks to.
    pub closed spec fn node(self) -> Seq<char> {
        self.connection@.node
    }

    /// Whether the client may go through a proxy.
    pub closed spec fn proxied(self) -> bool {
        self.connection@.proxied
    }

    /// The client that the requests are made with.
    pub fn into_inner(self) -> (client: opensearch::OpenSearch)
        ensures
            client == self.client(),
    {
        self.inner
    }
}

/// Builds a client with `opensearch::http::transport::TransportBuilder`, from a
/// `SingleNodeConnectionPool` of the parsed address and with `disable_proxy`.
/// Such a pool gives every request that one address, with a slash added to its
/// path where it does not end in one, and without proxies the request goes there
/// directly. Whether a client can be built rests with the machine's TLS setup,
/// so success is not promised.
#[verifier::external_body]
fn build_client(url: &str) -> (client: Result<Client, String>)
    ensures
        client matches Ok(c) ==> c.node() == url@ && !c.proxied(),
{
    let address = opensearch::http::Url::parse(url).map_err(|err| err.to_string())?;
    let conn_pool = opensearch::http::transport::SingleNodeConnectionPool::new(address);
    let transport = opensearch::http::transport::TransportBuilder::new(conn_pool)
        .disable_proxy()
        .build()
        .map_err(|err| err.to_string())?;
    Ok(Client {
        inner: opensearch::OpenSearch::new(transport),
        connection: Ghost(Connection { node: url@, proxied: false }),
    })
}

/// Why there is no client.
#[derive(Debug)]
pub enum ClientError {
    /// The address is not one, with what is wrong with it.
    InvalidAddress(String),
    /// The transport could not be set up, with the reason.
    Transport(String),
}

/// The address of the OpenSearch node, from `OPENSEARCH_ADDRESS` and
/// `OPENSEARCH_PORT`.
pub open spec fn node_address(address: Option<String>, port: Option<String>) -> Seq<char> {
    config::setting(address, "http://localhost"@) + ":"@ + config::setting(port, "9200"@)
}

/// The address of the OpenSearch node.
pub fn opensearch_address(address: Option<String>, port: Option<String>) -> (text: String)
    ensures
        text@ == node_address(address, port),
        text@ == (match address {
            Some(host) => host@,
            None => "http://localhost"@,
        }) + ":"@ + (match port {
            Some(number) => number@,
            None => "9200"@,
        }),
{
    config::host_and_port(
        config::value_or(address, "http://localhost"),
        config::value_or(port, "9200"),
    )
}

/// The client that was built, or the error that building it gave.
pub fn client_built(client: Result<Client, String>) -> (result: Result<Client, ClientError>)
    ensures
        match client {
            Ok(c) => result == Ok::<Client, ClientError>(c),
            Err(message) => result == Err::<Client, ClientError>(ClientError::Transport(message)),
        },
{
    match client {
        Ok(client) => Ok(client),
        Err(message) => Err(ClientError::Transport(message)),
    }
}

/// Whether `client` is what becomes of an address, given as text once parsed or
/// as the message of the error: a client that talks to it directly, unless none
/// can be built, or that error.
pub open spec fn serves(
    url: Result<Seq<char>, Seq<char>>,
    client: Result<Client, ClientError>,
) -> bool {
    match url {
        Ok(node) => match client {
            Ok(c) => c.node() == node && !c.proxied(),
            Err(err) => err is Transport,
        },
        Err(message) => client matches Err(ClientError::InvalidAddress(m)) && m@ == message,
    }
}

/// A client for a parsed address, or the error that parsing it gave.
pub fn client_for(url: Result<String, String>) -> (client: Result<Client, ClientError>)
    ensures
        match url {
            Ok(text) => serves(Ok(text@), client),
            Err(message) => serves(Err(message@), client),
        },
        match url {
            Ok(text) => match client {
                Ok(c) => c.node() == text@ && !c.proxied(),
                Err(err) => err is Transport,
            },
            Err(message) => client matches Err(ClientError::InvalidAddress(m)) && m@ == message@,
        },
{
    match url {
        Ok(url) => client_built(build_client(url.as_str())),
        Err(message) => Err(ClientError::InvalidAddress(message)),
    }
}

/// A client for the node that the two variables name.
pub fn create_opensearch_client(address: Option<String>, port: Option<String>) -> (client: Result<
    Client,
    ClientError,
>)
    ensures
        serves(parsed_url(node_address(address, port)), client),
        match parsed_url(
            (match address {
                Some(host) => host@,
                None => "http://localhost"@,
            }) + ":"@ + (match port {
                Some(number) => number@,
                None => "9200"@,
            }),
        ) {
            Ok(node) => match client {
                Ok(c) => c.node() == node && !c.proxied(),
                Err(err) => err is Transport,
            },
            Err(message) => client matches Err(ClientError::InvalidAddress(m)) && m@ == message,
        },
{
    client_for(parse_url(opensearch_address(address, port).as_str()))
}

} // verus!
