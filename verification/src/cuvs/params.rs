//! Parameters of the GPU index graph.

use crate::types::{Quantization, SpaceType, VsIndexConfiguration};
use vstd::prelude::*;

verus! {

/// The distance measures that the GPU index is built with.
#[derive(Clone, Copy, Debug, PartialEq, Eq, Structural)]
pub enum DistanceType {
    L2Expanded,
    CosineExpanded,
    InnerProduct,
}

/// Why a configuration cannot be served by a GPU index.
#[derive(Debug)]
pub enum ParamsError {
    UnsupportedQuantization(Quantization),
    HammingUnsupported,
    ZeroConnectivity,
    ConnectivityAboveExpansion,
}

impl ParamsError {
    /// The message for this error.
    pub open spec fn message(self) -> Seq<char> {
        match self {
            ParamsError::UnsupportedQuantization(quantization) =>
                "cuVS index does not support quantization "@ + quantization.label(),
            ParamsError::HammingUnsupported =>
                "cuVS index does not support the Hamming similarity metric"@,
            ParamsError::ZeroConnectivity =>
                "cuVS index requires `maximum_node_connections` to be greater than 0"@,
            ParamsError::ConnectivityAboveExpansion =>
                "cuVS index requires `construction_beam_width` >= `maximum_node_connections`, because the intermediate graph must be at least as large as the final graph."@,
        }
    }

    /// Puts the error into words.
    pub fn to_string(&self) -> (text: String)
        ensures
            text@ == self.message(),
            text@ == match self {
                ParamsError::UnsupportedQuantization(quantization) =>
                    "cuVS index does not support quantization "@ + quantization.label(),
                ParamsError::HammingUnsupported =>
                    "cuVS index does not support the Hamming similarity metric"@,
                ParamsError::ZeroConnectivity =>
                    "cuVS index requires `maximum_node_connections` to be greater than 0"@,
                ParamsError::ConnectivityAboveExpansion =>
                    "cuVS index requires `construction_beam_width` >= `maximum_node_connections`, because the intermediate graph must be at least as large as the final graph."@,
            },
    {
        match self {
            ParamsError::UnsupportedQuantization(quantization) => {
                let mut text = "cuVS index does not support quantization ".to_string();
                text.append(quantization.name());
                text
            },
            ParamsError::HammingUnsupported => {
                "cuVS index does not support the Hamming similarity metric".to_string()
            },
            ParamsError::ZeroConnectivity => {
                "cuVS index requires `maximum_node_connections` to be greater than 0".to_string()
            },
            ParamsError::ConnectivityAboveExpansion => {
                "cuVS index requires `construction_beam_width` >= `maximum_node_connections`, because the intermediate graph must be at least as large as the final graph.".to_string()
            },
        }
    }
}

/// The measure for a space type; there is none for Hamming.
pub open spec fn metric_of(space_type: SpaceType) -> Option<DistanceType> {
    match space_type {
        SpaceType::Euclidean => Some(DistanceType::L2Expanded),
        SpaceType::Cosine => Some(DistanceType::CosineExpanded),
        SpaceType::DotProduct => Some(DistanceType::InnerProduct),
        SpaceType::Hamming => None,
    }
}

/// The measure for a space type.
pub fn distance_type(space_type: SpaceType) -> (metric: Result<DistanceType, ParamsError>)
    ensures
        metric matches Ok(m) ==> metric_of(space_type) == Some(m),
        metric matches Err(e) ==> e is HammingUnsupported && space_type is Hamming,
        metric == match space_type {
            SpaceType::Euclidean => Ok::<DistanceType, ParamsError>(DistanceType::L2Expanded),
            SpaceType::Cosine => Ok(DistanceType::CosineExpanded),
            SpaceType::DotProduct => Ok(DistanceType::InnerProduct),
            SpaceType::Hamming => Err(ParamsError::HammingUnsupported),
        },
{
    match space_type {
        SpaceType::Euclidean => Ok(DistanceType::L2Expanded),
        SpaceType::Cosine => Ok(DistanceType::CosineExpanded),
        SpaceType::DotProduct => Ok(DistanceType::InnerProduct),
        SpaceType::Hamming => Err(ParamsError::HammingUnsupported),
    }
}

/// Parameters for the graph of a GPU index.
#[derive(Clone, Copy, Debug, PartialEq, Eq, Structural)]
pub struct CagraParams {
    pub metric: DistanceType,
    pub graph_degree: usize,
    pub intermediate_graph_degree: usize,
}

impl CagraParams {
    /// Whether a graph can have these degrees: it keeps at least one edge per
    /// node, and is pruned from a graph that is no smaller.
    pub open spec fn valid(self) -> bool {
        0 < self.graph_degree <= self.intermediate_graph_degree
    }

    /// Whether `params` is what becomes of a configuration. What is wrong is
    /// looked for in this order: the quantization, the space type, a
    /// connectivity of zero, a connectivity above the expansion.
    pub open spec fn agrees(
        config: VsIndexConfiguration,
        params: Result<CagraParams, ParamsError>,
    ) -> bool {
        if config.quantization !is F32 {
            params == Err::<CagraParams, ParamsError>(
                ParamsError::UnsupportedQuantization(config.quantization),
            )
        } else if config.space_type is Hamming {
            params == Err::<CagraParams, ParamsError>(ParamsError::HammingUnsupported)
        } else if config.connectivity.0 == 0 {
            params == Err::<CagraParams, ParamsError>(ParamsError::ZeroConnectivity)
        } else if config.connectivity.0 > config.expansion_add.0 {
            params == Err::<CagraParams, ParamsError>(ParamsError::ConnectivityAboveExpansion)
        } else {
            &&& params matches Ok(p)
            &&& Some(p.metric) == metric_of(config.space_type)
            &&& p.graph_degree == config.connectivity.0
            &&& p.intermediate_graph_degree == config.expansion_add.0
        }
    }

    /// Takes the parameters from an index configuration.
    pub fn try_from(config: &VsIndexConfiguration) -> (params: Result<Self, ParamsError>)
        ensures
            Self::agrees(*config, params),
            params matches Ok(p) ==> p.valid(),
            params is Ok <==> config.quantization is F32 && config.space_type !is Hamming && 0
                < config.connectivity.0 <= config.expansion_add.0,
            params matches Ok(p) ==> {
                &&& config.connectivity.0 == p.graph_degree
                &&& config.expansion_add.0 == p.intermediate_graph_degree
                &&& p.metric is L2Expanded <==> config.space_type is Euclidean
                &&& p.metric is CosineExpanded <==> config.space_type is Cosine
                &&& p.metric is InnerProduct <==> config.space_type is DotProduct
            },
            params matches Err(e) ==> {
                &&& e is UnsupportedQuantization <==> config.quantization !is F32
                &&& e matches ParamsError::UnsupportedQuantization(q) ==> q == config.quantization
                &&& e is HammingUnsupported <==> config.quantization is F32
                    && config.space_type is Hamming
                &&& e is ZeroConnectivity <==> config.quantization is F32
                    && config.space_type !is Hamming && config.connectivity.0 == 0
                &&& e is ConnectivityAboveExpansion <==> config.quantization is F32
                    && config.space_type !is Hamming && config.connectivity.0 > 0
            },
    {
        if config.quantization != Quantization::F32 {
            return Err(ParamsError::UnsupportedQuantization(config.quantization));
        }
        let metric = match distance_type(config.space_type) {
            Ok(metric) => metric,
            Err(err) => return Err(err),
        };
        let graph_degree: usize = *config.connectivity.as_ref();
        let intermediate_graph_degree: usize = *config.expansion_add.as_ref();
        if graph_degree == 0 {
            return Err(ParamsError::ZeroConnectivity);
        }
        if intermediate_graph_degree < graph_degree {
            return Err(ParamsError::ConnectivityAboveExpansion);
        }
        Ok(CagraParams { metric, graph_degree, intermediate_graph_degree })
    }
}

/// Parameters are those of the configuration that they were taken from: the
/// degrees are its settings, whatever these are, and the metric is the one of its
/// space type. They exist exactly where the graph can be built.
pub proof fn law_parameters_are_those_of_the_configuration(
    config: VsIndexConfiguration,
    params: Result<CagraParams, ParamsError>,
)
    requires
        CagraParams::agrees(config, params),
    ensures
        params is Ok <==> config.quantization is F32 && config.space_type !is Hamming && 0
            < config.connectivity.0 <= config.expansion_add.0,
        params matches Ok(p) ==> {
            &&& config.connectivity.0 == p.graph_degree
            &&& config.expansion_add.0 == p.intermediate_graph_degree
            &&& 0 < p.graph_degree <= p.intermediate_graph_degree
            &&& p.metric is L2Expanded <==> config.space_type is Euclidean
            &&& p.metric is CosineExpanded <==> config.space_type is Cosine
            &&& p.metric is InnerProduct <==> config.space_type is DotProduct
        },
{
}

/// Two configurations get the same parameters only where they agree in every
/// setting that the graph is built with.
pub proof fn law_no_setting_of_the_graph_is_ignored(
    a: VsIndexConfiguration,
    b: VsIndexConfiguration,
    params: CagraParams,
)
    requires
        CagraParams::agrees(a, Ok(params)),
        CagraParams::agrees(b, Ok(params)),
    ensures
        a.connectivity == b.connectivity,
        a.expansion_add == b.expansion_add,
        a.space_type == b.space_type,
        a.quantization == b.quantization,
{
}

} // verus!
