//! The settings that the service starts with. Each is taken from an environment
//! variable, or has a default where the variable is not set.

use crate::text;
use vstd::prelude::*;

verus! {

/// A setting: the variable's value where it is set, else the default.
pub open spec fn setting(variable: Option<String>, default: Seq<char>) -> Seq<char> {
    match variable {
        Some(value) => value@,
        None => default,
    }
}

/// The variable's value where it is set, else the default.
pub fn value_or(variable: Option<String>, default: &str) -> (value: String)
    ensures
        value@ == setting(variable, default@),
        variable matches Some(v) ==> value@ == v@,
        variable is None ==> value@ == default@,
{
    match variable {
        Some(value) => value,
        None => default.to_string(),
    }
}

/// Where the service listens, from `SCYLLA_USEARCH_URI`.
pub fn usearch_uri(variable: Option<String>) -> (uri: String)
    ensures
        uri@ == setting(variable, "127.0.0.1:6080"@),
        variable matches Some(v) ==> uri@ == v@,
        variable is None ==> uri@ == "127.0.0.1:6080"@,
{
    value_or(variable, "127.0.0.1:6080")
}

/// Where the service finds OpenSearch, from `OPENSEARCH_ADDRESS` and
/// `OPENSEARCH_PORT`.
pub fn opensearch_uri(address: Option<String>, port: Option<String>) -> (uri: String)
    ensures
        uri@ == setting(address, "127.0.0.1"@) + ":"@ + setting(port, "9200"@),
        uri@ == (match address {
            Some(host) => host@,
            None => "127.0.0.1"@,
        }) + ":"@ + (match port {
            Some(number) => number@,
            None => "9200"@,
        }),
{
    host_and_port(value_or(address, "127.0.0.1"), value_or(port, "9200"))
}

/// Where the service finds the database, from `SCYLLADB_URI`.
pub fn scylladb_uri(variable: Option<String>) -> (uri: String)
    ensures
        uri@ == setting(variable, "127.0.0.1:9042"@),
        variable matches Some(v) ==> uri@ == v@,
        variable is None ==> uri@ == "127.0.0.1:9042"@,
{
    value_or(variable, "127.0.0.1:9042")
}

/// Joins a host and a port with a colon.
pub fn host_and_port(host: String, port: String) -> (text: String)
    ensures
        text@ == host@ + ":"@ + port@,
{
    let mut text = host;
    text.append(":");
    text.append(port.as_str());
    text
}

/// The number of background threads, from `SCYLLA_USEARCH_BACKGROUND_THREADS`.
/// A variable that is not set, or that holds no number, leaves it open.
pub fn background_threads(variable: Option<String>) -> (threads: Option<usize>)
    ensures
        threads == match variable {
            Some(value) => text::parsed_usize(value@),
            None => None,
        },
{
    match variable {
        Some(value) => text::parse_usize(value.as_str()),
        None => None,
    }
}

/// The first address that a name stands for.
pub fn first_address<A>(addresses: Vec<A>) -> (address: Option<A>)
    ensures
        address is Some <==> addresses@.len() > 0,
        address matches Some(a) ==> a == addresses@[0],
{
    let mut addresses = addresses;
    if addresses.len() == 0 {
        None
    } else {
        Some(addresses.swap_remove(0))
    }
}

/// A setting is the variable where that is set, whatever it holds, and only
/// otherwise the default.
pub proof fn law_a_variable_overrides_its_default(
    variable: Option<String>,
    default: Seq<char>,
    other: Seq<char>,
)
    ensures
        variable matches Some(value) ==> setting(variable, default) == value@ && setting(
            variable,
            other,
        ) == value@,
        variable is None ==> setting(variable, default) == default,
{
}

} // verus!
