//! Creating GPU indexes.

use crate::cuvs::params::{CagraParams, ParamsError};
use crate::text;
use crate::types::{Dimensions, IndexKey, VsIndexConfiguration};
use vstd::prelude::*;

verus! {

/// Seconds between two ticks of the build timer.
pub const FLUSH_INTERVAL_SECS: u64 = 5;

/// Creates GPU indexes.
#[derive(Clone, Copy, Debug)]
pub struct CuvsIndexFactory;

/// Why no GPU index can be created for a configuration.
#[derive(Debug)]
pub enum CreateIndexError {
    /// The index is not known to be global.
    LocalIndex { key: IndexKey },
    /// The configuration does not suit a GPU index.
    Params(ParamsError),
}

impl CreateIndexError {
    /// The message for this error.
    pub open spec fn message(self) -> Seq<char> {
        match self {
            CreateIndexError::LocalIndex { key } => "cuVS does not support local indexes yet: "@
                + key.text(),
            CreateIndexError::Params(err) => err.message(),
        }
    }

    /// Puts the error into words.
    pub fn to_string(&self) -> (text: String)
        ensures
            text@ == self.message(),
            match self {
                CreateIndexError::LocalIndex { key } => text@
                    == "cuVS does not support local indexes yet: "@ + key.text(),
                CreateIndexError::Params(err) => text@ == err.message(),
            },
    {
        match self {
            CreateIndexError::LocalIndex { key } => {
                let mut text = "cuVS does not support local indexes yet: ".to_string();
                text.append(key.as_str());
                text
            },
            CreateIndexError::Params(err) => err.to_string(),
        }
    }
}

/// What the worker of a new index is started with.
#[derive(Debug)]
pub struct IndexStart {
    pub key: IndexKey,
    pub dimensions: Dimensions,
    pub params: CagraParams,
    pub flush_interval_secs: u64,
}

impl CuvsIndexFactory {
    /// Decides how the index is started. `is_global` is what the table says of
    /// the index: nothing where it does not know it, else whether it is global.
    pub fn create_index(&self, index: VsIndexConfiguration, is_global: Option<bool>) -> (start:
        Result<IndexStart, CreateIndexError>)
        ensures
            start matches Ok(s) ==> {
                &&& is_global == Some(true)
                &&& s.key == index.key
                &&& s.dimensions == index.dimensions
                &&& s.flush_interval_secs == FLUSH_INTERVAL_SECS
                &&& CagraParams::agrees(index, Ok(s.params))
            },
            start matches Err(CreateIndexError::Params(err)) ==> {
                &&& is_global == Some(true)
                &&& CagraParams::agrees(index, Err(err))
            },
            start matches Err(CreateIndexError::LocalIndex { key }) ==> {
                &&& is_global != Some(true)
                &&& key == index.key
            },
            start is Ok <==> is_global == Some(true) && index.quantization is F32
                && index.space_type !is Hamming && 0 < index.connectivity.0
                <= index.expansion_add.0,
            start matches Ok(s) ==> {
                &&& s.flush_interval_secs == 5
                &&& s.params.graph_degree == index.connectivity.0
                &&& s.params.intermediate_graph_degree == index.expansion_add.0
                &&& s.params.metric is L2Expanded <==> index.space_type is Euclidean
                &&& s.params.metric is CosineExpanded <==> index.space_type is Cosine
                &&& s.params.metric is InnerProduct <==> index.space_type is DotProduct
            },
            start matches Err(CreateIndexError::Params(e)) ==> {
                &&& e is UnsupportedQuantization <==> index.quantization !is F32
                &&& e matches ParamsError::UnsupportedQuantization(q) ==> q == index.quantization
                &&& e is HammingUnsupported <==> index.quantization is F32
                    && index.space_type is Hamming
                &&& e is ZeroConnectivity <==> index.quantization is F32
                    && index.space_type !is Hamming && index.connectivity.0 == 0
                &&& e is ConnectivityAboveExpansion <==> index.quantization is F32
                    && index.space_type !is Hamming && index.connectivity.0 > 0
            },
    {
        let global: bool = match is_global {
            Some(global) => global,
            None => false,
        };
        if !global {
            return Err(CreateIndexError::LocalIndex { key: index.key });
        }
        match CagraParams::try_from(&index) {
            Ok(params) => Ok(
                IndexStart {
                    key: index.key,
                    dimensions: index.dimensions,
                    params,
                    flush_interval_secs: FLUSH_INTERVAL_SECS,
                },
            ),
            Err(err) => Err(CreateIndexError::Params(err)),
        }
    }

    /// The name and version of the engine. `version` is what the GPU library
    /// says: major, minor and patch, or why it cannot say.
    pub fn index_engine_version(&self, version: Result<(u16, u16, u16), String>) -> (text: String)
        ensures
            match version {
                Ok((major, minor, patch)) => text@ == "cuvs-"@ + text::decimal(major as nat) + "."@
                    + text::decimal(minor as nat) + "."@ + text::decimal(patch as nat),
                Err(err) => text@ == "cuvs-unknown ("@ + err@ + ")"@,
            },
    {
        match version {
            Ok((major, minor, patch)) => {
                let mut text = "cuvs-".to_string();
                text.append(text::decimal_text(major as u64).as_str());
                text.append(".");
                text.append(text::decimal_text(minor as u64).as_str());
                text.append(".");
                text.append(text::decimal_text(patch as u64).as_str());
                text
            },
            Err(err) => {
                let mut text = "cuvs-unknown (".to_string();
                text.append(err.as_str());
                text.append(")");
                text
            },
        }
    }
}

/// The message for a GPU that could not be set up.
pub open spec fn resources_message(err: Seq<char>) -> Seq<char> {
    "failed to initialize cuVS/CUDA resources: "@ + err
        + ". Check that the machine has a GPU with a working NVIDIA driver, or unset VECTOR_STORE_USE_GPU to fall back to the default USearch backend."@
}

/// A factory, where the GPU could be set up: `resources` says whether it could.
pub fn new_cuvs(resources: Result<(), String>) -> (factory: Result<CuvsIndexFactory, String>)
    ensures
        factory is Ok <==> resources is Ok,
        factory matches Err(text) ==> text@ == resources_message(resources->Err_0@),
        factory matches Err(text) ==> text@ == "failed to initialize cuVS/CUDA resources: "@
            + resources->Err_0@
            + ". Check that the machine has a GPU with a working NVIDIA driver, or unset VECTOR_STORE_USE_GPU to fall back to the default USearch backend."@,
{
    match resources {
        Ok(_) => Ok(CuvsIndexFactory),
        Err(err) => {
            let mut text = "failed to initialize cuVS/CUDA resources: ".to_string();
            text.append(err.as_str());
            text.append(
                ". Check that the machine has a GPU with a working NVIDIA driver, or unset VECTOR_STORE_USE_GPU to fall back to the default USearch backend.",
            );
            Err(text)
        },
    }
}

} // verus!
