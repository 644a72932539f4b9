//! Names, identifiers and index settings shared by the rest of the library.

use crate::text::{decimal, decimal_text};
use vstd::prelude::*;

verus! {

/// Name of a database table.
#[derive(Debug)]
pub struct TableName(pub String);

/// Name of a column of a database table.
#[derive(Debug)]
pub struct ColumnName(pub String);

/// Name of a database keyspace.
#[derive(Debug)]
pub struct KeyspaceName(pub String);

/// Name of an index, without its keyspace.
#[derive(Debug)]
pub struct IndexName(pub String);

/// Identifier that OpenSearch keeps an index under.
#[derive(Debug)]
pub struct IndexId(pub String);

/// Full name of an index: its keyspace and its own name.
#[derive(Debug)]
pub struct IndexKey(String);

impl IndexKey {
    /// The text that messages show for this key.
    pub closed spec fn text(&self) -> Seq<char> {
        self.0@
    }

    /// Joins a keyspace and an index name with a dot.
    pub fn new(keyspace: &KeyspaceName, index: &IndexName) -> (key: Self)
        ensures
            key.text() == keyspace.0@ + "."@ + index.0@,
    {
        let mut text = keyspace.0.clone();
        text.append(".");
        text.append(index.0.as_str());
        IndexKey(text)
    }

    /// The key as text.
    pub fn as_str(&self) -> (text: &str)
        ensures
            text@ == self.text(),
    {
        self.0.as_str()
    }
}

impl Clone for IndexKey {
    fn clone(&self) -> (key: Self)
        ensures
            key == *self,
    {
        IndexKey(self.0.clone())
    }
}

/// Key of an embedding inside an index.
#[derive(Clone, Copy, Debug, PartialEq, Eq, Hash, Structural)]
pub struct Key(pub u64);

impl From<u64> for Key {
    fn from(value: u64) -> (key: Self)
        ensures
            key.0 == value,
    {
        Key(value)
    }
}

impl vstd::std_specs::convert::FromSpecImpl<u64> for Key {
    open spec fn obeys_from_spec() -> bool {
        true
    }

    open spec fn from_spec(value: u64) -> Self {
        Key(value)
    }
}

impl Key {
    /// The number behind the key.
    pub fn as_ref(&self) -> (value: &u64)
        ensures
            *value == self.0,
    {
        &self.0
    }

    /// The key in decimal notation.
    pub fn to_string(&self) -> (text: String)
        ensures
            text@ == decimal(self.0 as nat),
    {
        decimal_text(self.0)
    }
}

/// Number that stands for a primary key of the base table.
#[derive(Clone, Copy, Debug, PartialEq, Eq, Hash, Structural)]
pub struct PrimaryId(pub u64);

impl From<u64> for PrimaryId {
    fn from(value: u64) -> (id: Self)
        ensures
            id.0 == value,
    {
        PrimaryId(value)
    }
}

impl vstd::std_specs::convert::FromSpecImpl<u64> for PrimaryId {
    open spec fn obeys_from_spec() -> bool {
        true
    }

    open spec fn from_spec(value: u64) -> Self {
        PrimaryId(value)
    }
}

/// Number of values in a vector; never zero.
#[derive(Clone, Copy, Debug, PartialEq, Eq, Structural)]
pub struct Dimensions(usize);

impl Dimensions {
    /// The number of values.
    pub closed spec fn value(self) -> usize {
        self.0
    }

    #[verifier::type_invariant]
    closed spec fn nonzero(self) -> bool {
        self.0 > 0
    }

    /// Takes any number of values but zero.
    pub fn new(value: usize) -> (dimensions: Option<Self>)
        ensures
            dimensions is None <==> value == 0,
            dimensions matches Some(d) ==> d.value() == value,
    {
        if value == 0 {
            None
        } else {
            Some(Dimensions(value))
        }
    }

    /// The number of values, which is at least one.
    pub fn get(&self) -> (value: usize)
        ensures
            value == self.value(),
            value > 0,
    {
        proof {
            use_type_invariant(self);
        }
        self.0
    }
}

/// How many neighbours a node of the index graph keeps.
#[derive(Clone, Copy, Debug, PartialEq, Eq, Structural)]
pub struct Connectivity(pub usize);

/// How many candidates are looked at while a vector is added.
#[derive(Clone, Copy, Debug, PartialEq, Eq, Structural)]
pub struct ExpansionAdd(pub usize);

/// How many candidates are looked at while neighbours are searched.
#[derive(Clone, Copy, Debug, PartialEq, Eq, Structural)]
pub struct ExpansionSearch(pub usize);

impl Default for Connectivity {
    fn default() -> (connectivity: Self)
        ensures
            connectivity == Connectivity(16),
    {
        Connectivity(16)
    }
}

impl Default for ExpansionAdd {
    fn default() -> (expansion: Self)
        ensures
            expansion == ExpansionAdd(128),
    {
        ExpansionAdd(128)
    }
}

impl Default for ExpansionSearch {
    fn default() -> (expansion: Self)
        ensures
            expansion == ExpansionSearch(64),
    {
        ExpansionSearch(64)
    }
}

impl From<usize> for Connectivity {
    fn from(value: usize) -> (connectivity: Self)
        ensures
            connectivity.0 == value,
    {
        Connectivity(value)
    }
}

impl vstd::std_specs::convert::FromSpecImpl<usize> for Connectivity {
    open spec fn obeys_from_spec() -> bool {
        true
    }

    open spec fn from_spec(value: usize) -> Self {
        Connectivity(value)
    }
}

impl From<usize> for ExpansionAdd {
    fn from(value: usize) -> (expansion: Self)
        ensures
            expansion.0 == value,
    {
        ExpansionAdd(value)
    }
}

impl vstd::std_specs::convert::FromSpecImpl<usize> for ExpansionAdd {
    open spec fn obeys_from_spec() -> bool {
        true
    }

    open spec fn from_spec(value: usize) -> Self {
        ExpansionAdd(value)
    }
}

impl Connectivity {
    /// The number behind the setting.
    pub fn as_ref(&self) -> (value: &usize)
        ensures
            *value == self.0,
    {
        &self.0
    }
}

impl ExpansionAdd {
    /// The number behind the setting.
    pub fn as_ref(&self) -> (value: &usize)
        ensures
            *value == self.0,
    {
        &self.0
    }
}

/// How the distance between two vectors is measured.
#[derive(Clone, Copy, Debug, PartialEq, Eq, Structural)]
pub enum SpaceType {
    Euclidean,
    Cosine,
    DotProduct,
    Hamming,
}

impl Default for SpaceType {
    fn default() -> (space_type: Self)
        ensures
            space_type == SpaceType::Cosine,
    {
        SpaceType::Cosine
    }
}

/// How the values of a vector are stored.
#[derive(Clone, Copy, Debug, PartialEq, Eq, Structural)]
pub enum Quantization {
    F32,
    F16,
    BF16,
    I8,
    B1,
}

impl Default for Quantization {
    fn default() -> (quantization: Self)
        ensures
            quantization == Quantization::F32,
    {
        Quantization::F32
    }
}

impl Quantization {
    /// The variant's name.
    pub open spec fn label(self) -> Seq<char> {
        match self {
            Quantization::F32 => "F32"@,
            Quantization::F16 => "F16"@,
            Quantization::BF16 => "BF16"@,
            Quantization::I8 => "I8"@,
            Quantization::B1 => "B1"@,
        }
    }

    /// The variant's name, as it appears in messages.
    pub fn name(self) -> (name: &'static str)
        ensures
            name@ == self.label(),
            name@ == match self {
                Quantization::F32 => "F32"@,
                Quantization::F16 => "F16"@,
                Quantization::BF16 => "BF16"@,
                Quantization::I8 => "I8"@,
                Quantization::B1 => "B1"@,
            },
    {
        match self {
            Quantization::F32 => "F32",
            Quantization::F16 => "F16",
            Quantization::BF16 => "BF16",
            Quantization::I8 => "I8",
            Quantization::B1 => "B1",
        }
    }
}

/// What an index is to be created with.
#[derive(Debug)]
pub struct VsIndexConfiguration {
    pub key: IndexKey,
    pub dimensions: Dimensions,
    pub connectivity: Connectivity,
    pub expansion_add: ExpansionAdd,
    pub expansion_search: ExpansionSearch,
    pub space_type: SpaceType,
    pub quantization: Quantization,
}

} // verus!
